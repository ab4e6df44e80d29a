//! Process-wide configuration, loaded once at startup by the embedding
//! application and immutable afterwards.

use vstd::prelude::*;
use vstd::string::StrSliceExecFns;

verus! {

/// The service configuration: storage connection string, token signing
/// secret, session-token time-to-live in minutes, and listening port.
#[derive(Debug)]
pub struct Config {
    pub database_url: String,
    pub jwt_secret: String,
    pub jwt_maxage: u64,
    pub port: u16,
}

/// Outbound-mail settings: credentials and relay host for the mail
/// collaborator. Loaded from the environment by the embedding application.
#[derive(Debug)]
pub struct MySMTP {
    pub username: String,
    pub password: String,
    pub server: String,
    pub port: u16,
}

/// An ASCII whitespace character, as the origin-list parser strips it.
pub open spec fn is_blank(c: char) -> bool {
    c == ' ' || c == '\t' || c == '\r' || c == '\n'
}

/// A well-formed origin entry: non-empty, no separator, no leading or
/// trailing blank.
pub open spec fn origin_entry_ok(s: Seq<char>) -> bool {
    &&& s.len() > 0
    &&& forall|j: int| 0 <= j < s.len() ==> s[j] != ','
    &&& !is_blank(s[0])
    &&& !is_blank(s[s.len() - 1])
}

/// `s` without its leading blanks.
pub open spec fn trim_front(s: Seq<char>) -> Seq<char>
    decreases s.len(),
{
    if s.len() > 0 && is_blank(s[0]) {
        trim_front(s.drop_first())
    } else {
        s
    }
}

/// `s` without its trailing blanks.
pub open spec fn trim_back(s: Seq<char>) -> Seq<char>
    decreases s.len(),
{
    if s.len() > 0 && is_blank(s[s.len() - 1]) {
        trim_back(s.drop_last())
    } else {
        s
    }
}

/// `s` without leading or trailing blanks.
pub open spec fn spec_trim(s: Seq<char>) -> Seq<char> {
    trim_back(trim_front(s))
}

/// The comma-separated segments of `s`, verbatim and in order; the empty
/// input is one empty segment.
pub open spec fn split_commas(s: Seq<char>) -> Seq<Seq<char>>
    decreases s.len(),
{
    if s.len() == 0 {
        seq![Seq::<char>::empty()]
    } else if s[0] == ',' {
        seq![Seq::<char>::empty()] + split_commas(s.drop_first())
    } else {
        let rest = split_commas(s.drop_first());
        seq![seq![s[0]] + rest[0]] + rest.drop_first()
    }
}

/// What one segment contributes to the entry list: its trimmed text, or
/// nothing if only blanks remain.
pub open spec fn trimmed_entry(seg: Seq<char>) -> Seq<Seq<char>> {
    if spec_trim(seg).len() > 0 {
        seq![spec_trim(seg)]
    } else {
        Seq::<Seq<char>>::empty()
    }
}

/// The segments trimmed, empty ones dropped, order kept.
pub open spec fn trimmed_nonempty(segs: Seq<Seq<char>>) -> Seq<Seq<char>>
    decreases segs.len(),
{
    if segs.len() == 0 {
        Seq::<Seq<char>>::empty()
    } else {
        trimmed_entry(segs[0]) + trimmed_nonempty(segs.drop_first())
    }
}

/// The origin entries of an origin-list string: each comma-separated
/// segment trimmed of blanks, empty entries dropped, order kept.
pub open spec fn spec_origins(s: Seq<char>) -> Seq<Seq<char>> {
    trimmed_nonempty(split_commas(s))
}

/// The text of each entry in an entry list.
pub open spec fn origin_views(v: Seq<String>) -> Seq<Seq<char>> {
    Seq::new(v.len(), |i: int| v[i]@)
}

proof fn lemma_split_comma_free(s: Seq<char>)
    requires
        forall|j: int| 0 <= j < s.len() ==> s[j] != ',',
    ensures
        split_commas(s) == seq![s],
    decreases s.len(),
{
    if s.len() == 0 {
        assert(s =~= Seq::<char>::empty());
        assert(split_commas(s) =~= seq![s]);
    } else {
        lemma_split_comma_free(s.drop_first());
        assert(seq![s[0]] + s.drop_first() =~= s);
        assert(split_commas(s) =~= seq![s]);
    }
}

proof fn lemma_split_prefix(a: Seq<char>, b: Seq<char>)
    requires
        forall|j: int| 0 <= j < a.len() ==> a[j] != ',',
    ensures
        split_commas(a + seq![','] + b) == seq![a] + split_commas(b),
    decreases a.len(),
{
    let s = a + seq![','] + b;
    if a.len() == 0 {
        assert(a =~= Seq::<char>::empty());
        assert(s =~= seq![','] + b);
        assert((seq![','] + b).drop_first() =~= b);
        assert(split_commas(s) =~= seq![a] + split_commas(b));
    } else {
        assert(s[0] == a[0]);
        assert(s.drop_first() =~= a.drop_first() + seq![','] + b);
        lemma_split_prefix(a.drop_first(), b);
        let rest = split_commas(s.drop_first());
        assert(rest == seq![a.drop_first()] + split_commas(b));
        assert(rest[0] == a.drop_first());
        assert(rest.drop_first() =~= split_commas(b));
        assert(seq![s[0]] + rest[0] =~= a);
        assert(split_commas(s) == seq![seq![s[0]] + rest[0]] + rest.drop_first());
        assert(split_commas(s) =~= seq![a] + split_commas(b));
    }
}

proof fn lemma_trim_front_skip(x: Seq<char>, j: int)
    requires
        0 <= j <= x.len(),
        forall|k: int| 0 <= k < j ==> is_blank(x[k]),
        j == x.len() || !is_blank(x[j]),
    ensures
        trim_front(x) == x.subrange(j, x.len() as int),
    decreases j,
{
    if j == 0 {
        assert(x.subrange(0, x.len() as int) =~= x);
    } else {
        assert(is_blank(x[0]));
        lemma_trim_front_skip(x.drop_first(), j - 1);
        assert(x.drop_first().subrange(j - 1, x.drop_first().len() as int) =~= x.subrange(
            j,
            x.len() as int,
        ));
    }
}

proof fn lemma_trim_back_skip(x: Seq<char>, j: int)
    requires
        0 <= j <= x.len(),
        forall|k: int| j <= k < x.len() ==> is_blank(x[k]),
        j == 0 || !is_blank(x[j - 1]),
    ensures
        trim_back(x) == x.subrange(0, j),
    decreases x.len(),
{
    if j == x.len() {
        if x.len() == 0 {
            assert(x.subrange(0, 0) =~= x);
        } else {
            assert(!is_blank(x[x.len() - 1]));
            assert(x.subrange(0, x.len() as int) =~= x);
        }
    } else {
        assert(is_blank(x[x.len() - 1]));
        lemma_trim_back_skip(x.drop_last(), j);
        assert(x.drop_last().subrange(0, j) =~= x.subrange(0, j));
    }
}

/// Splits a comma-separated origin list into its entries: exactly the
/// non-empty trimmed segments of the input, in order, ready for the
/// transport layer's cross-origin allow-list.
#[verifier::loop_isolation(false)]
pub fn parse_allowed_origins(raw: &str) -> (r: Vec<String>)
    ensures
        origin_views(r@) == spec_origins(raw@),
        forall|i: int| 0 <= i < r@.len() ==> origin_entry_ok((#[trigger] r@[i])@),
{
    let mut out: Vec<String> = Vec::new();
    let n = raw.unicode_len();
    let mut seg_start: usize = 0;
    let mut k: usize = 0;
    proof {
        assert(raw@.subrange(0, n as int) =~= raw@);
        assert(origin_views(out@) + spec_origins(raw@) =~= spec_origins(raw@));
    }
    while k < n
        invariant
            n == raw@.len(),
            seg_start <= k <= n,
            forall|j: int| seg_start <= j < k ==> raw@[j] != ',',
            forall|i: int| 0 <= i < out@.len() ==> origin_entry_ok((#[trigger] out@[i])@),
            origin_views(out@) + spec_origins(raw@.subrange(seg_start as int, n as int))
                == spec_origins(raw@),
        decreases n - k,
    {
        if raw.get_char(k) == ',' {
            proof {
                let seg = raw@.subrange(seg_start as int, k as int);
                let rest = raw@.subrange(k + 1 as int, n as int);
                let suffix = raw@.subrange(seg_start as int, n as int);
                assert(suffix =~= seg + seq![','] + rest);
                lemma_split_prefix(seg, rest);
                assert((seq![seg] + split_commas(rest)).drop_first() =~= split_commas(rest));
                assert(spec_origins(suffix) == trimmed_entry(seg) + spec_origins(rest));
            }
            let ghost prev = out@;
            push_trimmed(&mut out, raw, seg_start, k);
            proof {
                let seg = raw@.subrange(seg_start as int, k as int);
                let rest = raw@.subrange(k + 1 as int, n as int);
                assert((origin_views(prev) + trimmed_entry(seg)) + spec_origins(rest)
                    =~= origin_views(prev) + (trimmed_entry(seg) + spec_origins(rest)));
            }
            seg_start = k + 1;
        }
        k += 1;
    }
    proof {
        let suffix = raw@.subrange(seg_start as int, n as int);
        lemma_split_comma_free(suffix);
        assert(seq![suffix].drop_first() =~= Seq::<Seq<char>>::empty());
        assert(trimmed_nonempty(Seq::<Seq<char>>::empty()) =~= Seq::<Seq<char>>::empty());
        assert(trimmed_entry(suffix) + Seq::<Seq<char>>::empty() =~= trimmed_entry(suffix));
        assert(spec_origins(suffix) == trimmed_entry(suffix));
    }
    let ghost prev = out@;
    push_trimmed(&mut out, raw, seg_start, n);
    proof {
        assert(origin_views(out@) =~= spec_origins(raw@));
    }
    out
}

/// Strips blanks around `raw[seg_start..seg_end]` and, if anything is
/// left, appends exactly that trimmed segment to the entry list.
fn push_trimmed(out: &mut Vec<String>, raw: &str, seg_start: usize, seg_end: usize)
    requires
        seg_start <= seg_end <= raw@.len(),
        forall|j: int| seg_start <= j < seg_end ==> raw@[j] != ',',
        forall|i: int| 0 <= i < old(out)@.len() ==> origin_entry_ok((#[trigger] old(out)@[i])@),
    ensures
        forall|i: int| 0 <= i < final(out)@.len() ==> origin_entry_ok((#[trigger] final(out)@[i])@),
        origin_views(final(out)@) == origin_views(old(out)@) + trimmed_entry(
            raw@.subrange(seg_start as int, seg_end as int),
        ),
{
    let ghost seg = raw@.subrange(seg_start as int, seg_end as int);
    let mut s = seg_start;
    let mut e = seg_end;
    while s < e && is_blank_exec(raw.get_char(s))
        invariant
            seg_start <= s <= e <= raw@.len(),
            e == seg_end,
            forall|k: int| seg_start <= k < s ==> is_blank(raw@[k]),
        decreases e - s,
    {
        s += 1;
    }
    while e > s && is_blank_exec(raw.get_char(e - 1))
        invariant
            s <= e <= seg_end,
            e <= raw@.len(),
            forall|k: int| e <= k < seg_end ==> is_blank(raw@[k]),
        decreases e,
    {
        e -= 1;
    }
    proof {
        lemma_trim_front_skip(seg, s - seg_start);
        let fr = seg.subrange(s - seg_start, seg.len() as int);
        assert(fr =~= raw@.subrange(s as int, seg_end as int));
        lemma_trim_back_skip(fr, e - s);
        assert(fr.subrange(0, e - s) =~= raw@.subrange(s as int, e as int));
        assert(spec_trim(seg) == raw@.subrange(s as int, e as int));
    }
    if s < e {
        let entry = raw.substring_char(s, e).to_owned();
        proof {
            assert(entry@ == raw@.subrange(s as int, e as int));
            assert(entry@[0] == raw@[s as int]);
            assert(entry@[entry@.len() - 1] == raw@[e - 1 as int]);
            assert forall|j: int| 0 <= j < entry@.len() implies entry@[j] != ',' by {
                assert(entry@[j] == raw@[s + j]);
            }
        }
        let ghost prev = out@;
        out.push(entry);
        proof {
            assert(origin_views(out@) =~= origin_views(prev) + trimmed_entry(seg));
        }
    } else {
        proof {
            assert(raw@.subrange(s as int, e as int) =~= Seq::<char>::empty());
            assert(origin_views(out@) =~= origin_views(out@) + trimmed_entry(seg));
        }
    }
}

fn is_blank_exec(c: char) -> (r: bool)
    ensures
        r == is_blank(c),
{
    c == ' ' || c == '\t' || c == '\r' || c == '\n'
}

} // verus!
