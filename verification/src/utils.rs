//! Rewriting of `:name` placeholders into PostgreSQL's positional `$N` form.
//!
//! The input is tokenized into segments by scanning for quote characters,
//! toggling one state per quote kind (`'` and `"`); SQL escapes quotes by
//! doubling them, so backslashes are not treated as escapes.  Segments
//! alternate outside-literal (even index) and inside-literal (odd index)
//! regions; placeholders are only rewritten in even segments.  A placeholder
//! is `:` followed by an identifier, except when the `:` directly follows
//! another `:` (the PostgreSQL cast operator `::`).

use vstd::prelude::*;

verus! {

/// A query rewritten to positional form together with the parameter names,
/// listed in order of first appearance.
#[derive(Debug, Clone, PartialEq, Eq)]
pub struct ParametrizedQuery {
    pub raw_query: String,
    pub params: Vec<String>,
}

/// First character of a placeholder identifier: an ASCII letter or `_`.
pub open spec fn is_ident_start(c: char) -> bool {
    ('a' <= c && c <= 'z') || ('A' <= c && c <= 'Z') || c == '_'
}

/// Later character of a placeholder identifier: also allows ASCII digits.
pub open spec fn is_ident_char(c: char) -> bool {
    is_ident_start(c) || ('0' <= c && c <= '9')
}

/// The segments of `s` that remain when the scan stands at position `i`,
/// with `last` the start of the current segment and `sq`/`dq` the two
/// quote states.  A quote character whose state opens ends the segment
/// before itself; one whose state closes ends the segment after itself.
pub open spec fn spec_split_from(s: Seq<char>, last: int, i: int, sq: bool, dq: bool) -> Seq<
    Seq<char>,
>
    decreases s.len() - i,
{
    if i < 0 || i >= s.len() {
        seq![s.subrange(last, s.len() as int)]
    } else if s[i] == '\'' {
        let end = if !sq {
            i
        } else {
            i + 1
        };
        seq![s.subrange(last, end)] + spec_split_from(s, end, i + 1, !sq, dq)
    } else if s[i] == '"' {
        let end = if !dq {
            i
        } else {
            i + 1
        };
        seq![s.subrange(last, end)] + spec_split_from(s, end, i + 1, sq, !dq)
    } else {
        spec_split_from(s, last, i + 1, sq, dq)
    }
}

/// Splits a query into alternating outside-literal and inside-literal
/// segments.  A leading single quote is kept as a segment of its own so
/// that the even/odd alternation holds.
pub open spec fn spec_split(s: Seq<char>) -> Seq<Seq<char>> {
    if s.len() > 0 && s[0] == '\'' {
        seq![s.take(1)] + spec_split_from(s, 1, 1, false, false)
    } else {
        spec_split_from(s, 0, 0, false, false)
    }
}

/// Splitting partitions the input: the segments concatenate back to it.
pub proof fn lemma_split_from_concat(s: Seq<char>, last: int, i: int, sq: bool, dq: bool)
    requires
        0 <= last <= i,
        last <= s.len(),
    ensures
        spec_split_from(s, last, i, sq, dq).flatten() =~= s.subrange(last, s.len() as int),
    decreases s.len() - i,
{
    let segs = spec_split_from(s, last, i, sq, dq);
    if i < 0 || i >= s.len() {
        assert(segs =~= seq![s.subrange(last, s.len() as int)]);
        segs.lemma_flatten_one_element();
    } else if s[i] == '\'' || s[i] == '"' {
        let toggles = if s[i] == '\'' {
            sq
        } else {
            dq
        };
        let end = if !toggles {
            i
        } else {
            i + 1
        };
        let sq2 = if s[i] == '\'' {
            !sq
        } else {
            sq
        };
        let dq2 = if s[i] == '"' {
            !dq
        } else {
            dq
        };
        lemma_split_from_concat(s, end, i + 1, sq2, dq2);
        let rest = spec_split_from(s, end, i + 1, sq2, dq2);
        assert(segs =~= seq![s.subrange(last, end)] + rest);
        assert(segs.len() > 0);
        assert(segs.first() == s.subrange(last, end));
        assert(segs.drop_first() =~= rest);
        assert(segs.flatten() == segs.first() + segs.drop_first().flatten());
        assert(segs.flatten() =~= s.subrange(last, end) + rest.flatten());
        assert(s.subrange(last, end) + s.subrange(end, s.len() as int) =~= s.subrange(
            last,
            s.len() as int,
        ));
    } else {
        lemma_split_from_concat(s, last, i + 1, sq, dq);
    }
}

/// The segments of a whole query concatenate back to the query.
pub proof fn lemma_split_concat(s: Seq<char>)
    ensures
        spec_split(s).flatten() =~= s,
{
    if s.len() > 0 && s[0] == '\'' {
        lemma_split_from_concat(s, 1, 1, false, false);
        let rest = spec_split_from(s, 1, 1, false, false);
        let segs = spec_split(s);
        assert(segs =~= seq![s.take(1)] + rest);
        assert(segs.first() == s.take(1));
        assert(segs.drop_first() =~= rest);
        assert(segs.flatten() == segs.first() + segs.drop_first().flatten());
        assert(spec_split(s).flatten() =~= s.take(1) + rest.flatten());
        assert(s.take(1) + s.subrange(1, s.len() as int) =~= s);
    } else {
        lemma_split_from_concat(s, 0, 0, false, false);
        assert(s.subrange(0, s.len() as int) =~= s);
    }
}

/// Splits `query` into segments by the two quote states; even-indexed
/// segments lie outside string and identifier literals.
pub fn split_query(query: &str) -> (segments: Vec<String>)
    ensures
        segments.deep_view() == spec_split(query@),
{
    let len = query.unicode_len();
    let mut segments: Vec<String> = Vec::new();
    let mut sq = false;
    let mut dq = false;
    let mut last: usize = 0;
    let mut i: usize = 0;
    if len > 0 && query.get_char(0) == '\'' {
        segments.push(query.substring_char(0, 1).to_owned());
        last = 1;
        i = 1;
        assert(segments.deep_view() =~= seq![query@.take(1)]);
    }
    while i < len
        invariant
            len == query@.len(),
            last <= i <= len,
            segments.deep_view() + spec_split_from(query@, last as int, i as int, sq, dq)
                == spec_split(query@),
        decreases len - i,
    {
        let c = query.get_char(i);
        if c == '\'' {
            let end = if !sq {
                i
            } else {
                i + 1
            };
            segments.push(query.substring_char(last, end).to_owned());
            proof {
                assert(segments.deep_view() =~= segments.deep_view().drop_last().push(
                    query@.subrange(last as int, end as int),
                ));
                assert(segments.deep_view() + spec_split_from(
                    query@,
                    end as int,
                    i + 1 as int,
                    !sq,
                    dq,
                ) =~= spec_split(query@));
            }
            last = end;
            sq = !sq;
        } else if c == '"' {
            let end = if !dq {
                i
            } else {
                i + 1
            };
            segments.push(query.substring_char(last, end).to_owned());
            proof {
                assert(segments.deep_view() =~= segments.deep_view().drop_last().push(
                    query@.subrange(last as int, end as int),
                ));
                assert(segments.deep_view() + spec_split_from(
                    query@,
                    end as int,
                    i + 1 as int,
                    sq,
                    !dq,
                ) =~= spec_split(query@));
            }
            last = end;
            dq = !dq;
        }
        i = i + 1;
    }
    segments.push(query.substring_char(last, len).to_owned());
    proof {
        assert(segments.deep_view() =~= segments.deep_view().drop_last().push(
            query@.subrange(last as int, len as int),
        ));
        assert(segments.deep_view() =~= spec_split(query@));
    }
    segments
}

/// The decimal digit character for `d`, which must be below ten.
pub open spec fn digit_char(d: nat) -> char {
    if d == 0 {
        '0'
    } else if d == 1 {
        '1'
    } else if d == 2 {
        '2'
    } else if d == 3 {
        '3'
    } else if d == 4 {
        '4'
    } else if d == 5 {
        '5'
    } else if d == 6 {
        '6'
    } else if d == 7 {
        '7'
    } else if d == 8 {
        '8'
    } else {
        '9'
    }
}

/// The decimal rendering of `n`, most significant digit first.
pub open spec fn spec_dec_digits(n: nat) -> Seq<char>
    decreases n,
{
    if n < 10 {
        seq![digit_char(n)]
    } else {
        spec_dec_digits(n / 10) + seq![digit_char(n % 10)]
    }
}

fn digit_str(d: usize) -> (r: &'static str)
    requires
        d < 10,
    ensures
        r@ =~= seq![digit_char(d as nat)],
{
    proof {
        reveal_strlit("0");
        reveal_strlit("1");
        reveal_strlit("2");
        reveal_strlit("3");
        reveal_strlit("4");
        reveal_strlit("5");
        reveal_strlit("6");
        reveal_strlit("7");
        reveal_strlit("8");
        reveal_strlit("9");
    }
    if d == 0 {
        "0"
    } else if d == 1 {
        "1"
    } else if d == 2 {
        "2"
    } else if d == 3 {
        "3"
    } else if d == 4 {
        "4"
    } else if d == 5 {
        "5"
    } else if d == 6 {
        "6"
    } else if d == 7 {
        "7"
    } else if d == 8 {
        "8"
    } else {
        "9"
    }
}

/// The decimal digit character of `d`, as a string slice.
pub fn digit_str_of(d: u32) -> (r: &'static str)
    requires
        d < 10,
    ensures
        r@ =~= seq![digit_char(d as nat)],
{
    digit_str(d as usize)
}

/// Renders `n` in decimal.
pub fn usize_to_dec(n: usize) -> (r: String)
    ensures
        r@ == spec_dec_digits(n as nat),
    decreases n,
{
    if n < 10 {
        digit_str(n).to_owned()
    } else {
        let mut r = usize_to_dec(n / 10);
        r.append(digit_str(n % 10));
        r
    }
}

/// The position of `name` in `params`, or `params.len()` when absent.
pub open spec fn param_index(params: Seq<Seq<char>>, name: Seq<char>) -> int
    decreases params.len(),
{
    if params.len() == 0 {
        0
    } else if params[0] == name {
        0
    } else {
        1 + param_index(params.drop_first(), name)
    }
}

/// Whether `params` already holds `name`.
pub open spec fn contains_name(params: Seq<Seq<char>>, name: Seq<char>) -> bool
    decreases params.len(),
{
    params.len() != 0 && (params[0] == name || contains_name(params.drop_first(), name))
}

pub proof fn lemma_param_index_found(params: Seq<Seq<char>>, name: Seq<char>)
    requires
        contains_name(params, name),
    ensures
        0 <= param_index(params, name) < params.len(),
        params[param_index(params, name)] == name,
    decreases params.len(),
{
    if params[0] == name {
    } else {
        lemma_param_index_found(params.drop_first(), name);
    }
}

pub proof fn lemma_param_index_absent(params: Seq<Seq<char>>, name: Seq<char>)
    requires
        !contains_name(params, name),
    ensures
        param_index(params, name) == params.len(),
    decreases params.len(),
{
    if params.len() == 0 {
    } else {
        lemma_param_index_absent(params.drop_first(), name);
    }
}

/// The end of the run of identifier characters that starts at `j`.
pub open spec fn ident_end(s: Seq<char>, j: int) -> int
    decreases s.len() - j,
{
    if 0 <= j < s.len() && is_ident_char(s[j]) {
        ident_end(s, j + 1)
    } else {
        j
    }
}

pub proof fn lemma_ident_end_bounds(s: Seq<char>, j: int)
    requires
        0 <= j <= s.len(),
    ensures
        j <= ident_end(s, j) <= s.len(),
    decreases s.len() - j,
{
    if j < s.len() && is_ident_char(s[j]) {
        lemma_ident_end_bounds(s, j + 1);
    }
}

/// A placeholder begins at `i`: a `:` followed by an identifier start,
/// where the `:` does not directly follow another `:` (that pair is the
/// cast operator `::`).
pub open spec fn placeholder_at(s: Seq<char>, i: int) -> bool {
    &&& 0 <= i
    &&& i + 1 < s.len()
    &&& s[i] == ':'
    &&& is_ident_start(s[i + 1])
    &&& (i == 0 || s[i - 1] != ':')
}

/// What one pass of the rewriter produces: the rewritten text, the
/// parameter names in order of first appearance, and one `(index, name)`
/// pair per placeholder occurrence, where `index` is the positional
/// number the occurrence was rewritten to.
pub ghost struct RewriteState {
    pub rewritten: Seq<char>,
    pub params: Seq<Seq<char>>,
    pub assigned: Seq<(int, Seq<char>)>,
}

/// Some placeholder occurrence carries the name `n`.
pub open spec fn name_assigned(st: RewriteState, n: Seq<char>) -> bool {
    exists|a: int| 0 <= a < st.assigned.len() && st.assigned[a].1 == n
}

/// The distinct placeholder names of a rewrite.
pub open spec fn assigned_names(st: RewriteState) -> Set<Seq<char>> {
    Set::new(|n: Seq<char>| name_assigned(st, n))
}

/// Rewrites the outside-literal segment `s` from position `i` on, with the
/// parameter names collected so far.  A placeholder whose name is already
/// in `params` reuses its index; a fresh name is appended and takes the
/// next index.  Indices are one-based.
pub open spec fn scan_segment(s: Seq<char>, i: int, params: Seq<Seq<char>>) -> RewriteState
    decreases s.len() - i,
    via scan_segment_decreases
{
    if !(0 <= i < s.len()) {
        RewriteState { rewritten: Seq::empty(), params, assigned: Seq::empty() }
    } else if placeholder_at(s, i) {
        let end = ident_end(s, i + 1);
        let name = s.subrange(i + 1, end);
        let k = param_index(params, name) + 1;
        let params2 = if contains_name(params, name) {
            params
        } else {
            params.push(name)
        };
        let rest = scan_segment(s, end, params2);
        RewriteState {
            rewritten: seq!['$'] + spec_dec_digits(k as nat) + rest.rewritten,
            params: rest.params,
            assigned: seq![(k, name)] + rest.assigned,
        }
    } else {
        let rest = scan_segment(s, i + 1, params);
        RewriteState {
            rewritten: seq![s[i]] + rest.rewritten,
            params: rest.params,
            assigned: rest.assigned,
        }
    }
}

#[via_fn]
proof fn scan_segment_decreases(s: Seq<char>, i: int, params: Seq<Seq<char>>) {
    if 0 <= i < s.len() && placeholder_at(s, i) {
        lemma_ident_end_bounds(s, i + 1);
    }
}

/// Rewrites the segments from `idx` on: odd-indexed (inside-literal)
/// segments pass through verbatim, even-indexed ones have their
/// placeholders rewritten, threading the parameter list left to right.
pub open spec fn process_segments(segs: Seq<Seq<char>>, idx: int, params: Seq<Seq<char>>) -> RewriteState
    decreases segs.len() - idx,
{
    if !(0 <= idx < segs.len()) {
        RewriteState { rewritten: Seq::empty(), params, assigned: Seq::empty() }
    } else if idx % 2 == 1 {
        let rest = process_segments(segs, idx + 1, params);
        RewriteState {
            rewritten: segs[idx] + rest.rewritten,
            params: rest.params,
            assigned: rest.assigned,
        }
    } else {
        let here = scan_segment(segs[idx], 0, params);
        let rest = process_segments(segs, idx + 1, here.params);
        RewriteState {
            rewritten: here.rewritten + rest.rewritten,
            params: rest.params,
            assigned: here.assigned + rest.assigned,
        }
    }
}

/// The whole rewrite: split into segments, then rewrite the even ones.
pub open spec fn spec_rewrite(s: Seq<char>) -> RewriteState {
    process_segments(spec_split(s), 0, Seq::empty())
}

proof fn lemma_contains_iff_exists(p: Seq<Seq<char>>, n: Seq<char>)
    ensures
        contains_name(p, n) <==> exists|j: int| 0 <= j < p.len() && p[j] == n,
    decreases p.len(),
{
    if p.len() != 0 {
        lemma_contains_iff_exists(p.drop_first(), n);
        if contains_name(p.drop_first(), n) {
            let j = choose|j: int| 0 <= j < p.drop_first().len() && p.drop_first()[j] == n;
            assert(p[j + 1] == n);
        }
        if exists|j: int| 0 <= j < p.len() && p[j] == n {
            let j = choose|j: int| 0 <= j < p.len() && p[j] == n;
            if j > 0 {
                assert(p.drop_first()[j - 1] == n);
            }
        }
    }
}

/// What the scan guarantees, whatever segment it runs on: the parameter
/// list only grows, stays free of duplicates, every assigned index points
/// at the parameter that carries the occurrence's name, every new
/// parameter stems from an occurrence, and a segment without occurrences
/// passes through unchanged.
proof fn lemma_scan_segment_properties(s: Seq<char>, i: int, params: Seq<Seq<char>>)
    requires
        0 <= i <= s.len(),
    ensures
        params.is_prefix_of(scan_segment(s, i, params).params),
        params.no_duplicates() ==> scan_segment(s, i, params).params.no_duplicates(),
        params.no_duplicates() ==> forall|a: int|
            0 <= a < scan_segment(s, i, params).assigned.len() ==> {
                let occ = #[trigger] scan_segment(s, i, params).assigned[a];
                1 <= occ.0 <= scan_segment(s, i, params).params.len() && scan_segment(
                    s,
                    i,
                    params,
                ).params[occ.0 - 1] == occ.1
            },
        forall|j: int|
            params.len() <= j < scan_segment(s, i, params).params.len() ==> name_assigned(
                scan_segment(s, i, params),
                #[trigger] scan_segment(s, i, params).params[j],
            ),
        scan_segment(s, i, params).assigned.len() == 0 ==> scan_segment(s, i, params).rewritten
            == s.subrange(i, s.len() as int) && scan_segment(s, i, params).params == params,
    decreases s.len() - i,
{
    let st = scan_segment(s, i, params);
    if !(0 <= i < s.len()) {
        assert(params.is_prefix_of(st.params));
        assert(st.rewritten =~= s.subrange(i, s.len() as int));
    } else if placeholder_at(s, i) {
        lemma_ident_end_bounds(s, i + 1);
        let end = ident_end(s, i + 1);
        let name = s.subrange(i + 1, end);
        let k = param_index(params, name) + 1;
        let params2 = if contains_name(params, name) {
            params
        } else {
            params.push(name)
        };
        lemma_scan_segment_properties(s, end, params2);
        let rest = scan_segment(s, end, params2);
        assert(params.is_prefix_of(params2));
        assert(params.is_prefix_of(st.params));
        if params.no_duplicates() {
            if contains_name(params, name) {
                lemma_param_index_found(params, name);
            } else {
                lemma_param_index_absent(params, name);
                lemma_contains_iff_exists(params, name);
                assert(params2.no_duplicates());
            }
            assert(params2.no_duplicates());
            assert(0 <= k - 1 < params2.len());
            assert(params2[k - 1] == name);
            assert(params2.is_prefix_of(rest.params));
            assert(st.params[k - 1] == name);
            assert(forall|a: int|
                0 <= a < st.assigned.len() ==> {
                    let occ = #[trigger] st.assigned[a];
                    1 <= occ.0 <= st.params.len() && st.params[occ.0 - 1] == occ.1
                });
        }
        // new parameters stem from occurrences
        assert forall|j: int| params.len() <= j < st.params.len() implies name_assigned(
            st,
            #[trigger] st.params[j],
        ) by {
            if j < params2.len() {
                // this is the freshly pushed name, assigned by the head occurrence
                assert(params2[j] == name);
                assert(rest.params.subrange(0, params2.len() as int)[j] == params2[j]);
                assert(st.params[j] == name);
                assert(st.assigned[0].1 == name);
            } else {
                assert(st.params[j] == rest.params[j]);
                assert(name_assigned(rest, rest.params[j]));
                let a = choose|a: int|
                    0 <= a < rest.assigned.len() && rest.assigned[a].1 == rest.params[j];
                assert(st.assigned[a + 1].1 == st.params[j]);
            }
        }
        assert(st.assigned.len() != 0);
    } else {
        lemma_scan_segment_properties(s, i + 1, params);
        let rest = scan_segment(s, i + 1, params);
        assert forall|j: int| params.len() <= j < st.params.len() implies name_assigned(
            st,
            #[trigger] st.params[j],
        ) by {
            assert(st.params[j] == rest.params[j]);
            assert(name_assigned(rest, rest.params[j]));
            let a = choose|a: int|
                0 <= a < rest.assigned.len() && rest.assigned[a].1 == rest.params[j];
            assert(st.assigned[a].1 == st.params[j]);
        }
        if st.assigned.len() == 0 {
            assert(st.rewritten =~= s.subrange(i, s.len() as int));
        }
    }
}

/// The scan guarantees, folded over the whole segment list.
proof fn lemma_process_segments_properties(segs: Seq<Seq<char>>, idx: int, params: Seq<Seq<char>>)
    requires
        0 <= idx <= segs.len(),
    ensures
        params.is_prefix_of(process_segments(segs, idx, params).params),
        params.no_duplicates() ==> process_segments(segs, idx, params).params.no_duplicates(),
        params.no_duplicates() ==> forall|a: int|
            0 <= a < process_segments(segs, idx, params).assigned.len() ==> {
                let occ = #[trigger] process_segments(segs, idx, params).assigned[a];
                1 <= occ.0 <= process_segments(segs, idx, params).params.len() && process_segments(
                    segs,
                    idx,
                    params,
                ).params[occ.0 - 1] == occ.1
            },
        forall|j: int|
            params.len() <= j < process_segments(segs, idx, params).params.len() ==> name_assigned(
                process_segments(segs, idx, params),
                #[trigger] process_segments(segs, idx, params).params[j],
            ),
        process_segments(segs, idx, params).assigned.len() == 0 ==> process_segments(
            segs,
            idx,
            params,
        ).rewritten == segs.subrange(idx, segs.len() as int).flatten() && process_segments(
            segs,
            idx,
            params,
        ).params == params,
    decreases segs.len() - idx,
{
    let st = process_segments(segs, idx, params);
    if !(0 <= idx < segs.len()) {
        assert(segs.subrange(idx, segs.len() as int) =~= Seq::<Seq<char>>::empty());
        assert(st.rewritten =~= segs.subrange(idx, segs.len() as int).flatten());
    } else if idx % 2 == 1 {
        lemma_process_segments_properties(segs, idx + 1, params);
        let rest = process_segments(segs, idx + 1, params);
        assert forall|j: int| params.len() <= j < st.params.len() implies name_assigned(
            st,
            #[trigger] st.params[j],
        ) by {
            assert(st.params[j] == rest.params[j]);
            assert(name_assigned(rest, rest.params[j]));
            let a = choose|a: int|
                0 <= a < rest.assigned.len() && rest.assigned[a].1 == rest.params[j];
            assert(st.assigned[a].1 == st.params[j]);
        }
        if st.assigned.len() == 0 {
            let tail = segs.subrange(idx, segs.len() as int);
            assert(tail.first() == segs[idx]);
            assert(tail.drop_first() =~= segs.subrange(idx + 1, segs.len() as int));
            assert(tail.flatten() == tail.first() + tail.drop_first().flatten());
        }
    } else {
        lemma_scan_segment_properties(segs[idx], 0, params);
        let here = scan_segment(segs[idx], 0, params);
        lemma_process_segments_properties(segs, idx + 1, here.params);
        let rest = process_segments(segs, idx + 1, here.params);
        assert(params.is_prefix_of(st.params));
        if params.no_duplicates() {
            assert forall|a: int| 0 <= a < st.assigned.len() implies {
                let occ = #[trigger] st.assigned[a];
                1 <= occ.0 <= st.params.len() && st.params[occ.0 - 1] == occ.1
            } by {
                if a < here.assigned.len() {
                    assert(st.assigned[a] == here.assigned[a]);
                    assert(here.params.is_prefix_of(st.params));
                } else {
                    assert(st.assigned[a] == rest.assigned[a - here.assigned.len()]);
                }
            }
        }
        assert forall|j: int| params.len() <= j < st.params.len() implies name_assigned(
            st,
            #[trigger] st.params[j],
        ) by {
            if j < here.params.len() {
                assert(here.params.is_prefix_of(st.params));
                assert(st.params[j] == here.params[j]);
                assert(name_assigned(here, here.params[j]));
                let a = choose|a: int|
                    0 <= a < here.assigned.len() && here.assigned[a].1 == here.params[j];
                assert(st.assigned[a] == here.assigned[a]);
                assert(st.assigned[a].1 == st.params[j]);
            } else {
                assert(st.params[j] == rest.params[j]);
                assert(name_assigned(rest, rest.params[j]));
                let a = choose|a: int|
                    0 <= a < rest.assigned.len() && rest.assigned[a].1 == rest.params[j];
                assert(st.assigned[a + here.assigned.len()].1 == st.params[j]);
            }
        }
        if st.assigned.len() == 0 {
            assert(here.assigned.len() == 0);
            assert(here.rewritten == segs[idx].subrange(0, segs[idx].len() as int));
            assert(here.rewritten =~= segs[idx]);
            let tail = segs.subrange(idx, segs.len() as int);
            assert(tail.first() == segs[idx]);
            assert(tail.drop_first() =~= segs.subrange(idx + 1, segs.len() as int));
            assert(tail.flatten() == tail.first() + tail.drop_first().flatten());
        }
    }
}

/// Rewriter law: a query in which the scan finds no placeholder occurrence
/// comes back textually unchanged, with an empty parameter list.  This also
/// covers the cast guard: a `:` pair such as `col::text` produces no
/// occurrence, so such a query is left alone.
pub proof fn lemma_rewrite_no_placeholders(s: Seq<char>)
    requires
        spec_rewrite(s).assigned.len() == 0,
    ensures
        spec_rewrite(s).rewritten == s,
        spec_rewrite(s).params == Seq::<Seq<char>>::empty(),
{
    lemma_process_segments_properties(spec_split(s), 0, Seq::empty());
    lemma_split_concat(s);
    assert(spec_split(s).subrange(0, spec_split(s).len() as int) =~= spec_split(s));
}

/// Rewriter law: parameter names are deduplicated.  The final list holds no
/// name twice, every occurrence's name is in the list, and every listed
/// name stems from some occurrence — so the list's length is exactly the
/// number of distinct placeholder names.
pub proof fn lemma_rewrite_params_deduplicated(s: Seq<char>)
    ensures
        spec_rewrite(s).params.no_duplicates(),
        forall|a: int|
            0 <= a < spec_rewrite(s).assigned.len() ==> spec_rewrite(s).params.contains(
                #[trigger] spec_rewrite(s).assigned[a].1,
            ),
        forall|j: int|
            0 <= j < spec_rewrite(s).params.len() ==> name_assigned(
                spec_rewrite(s),
                #[trigger] spec_rewrite(s).params[j],
            ),
        spec_rewrite(s).params.to_set() == assigned_names(spec_rewrite(s)),
        spec_rewrite(s).params.len() == assigned_names(spec_rewrite(s)).len(),
{
    lemma_process_segments_properties(spec_split(s), 0, Seq::empty());
    let st = spec_rewrite(s);
    assert forall|a: int| 0 <= a < st.assigned.len() implies st.params.contains(
        #[trigger] st.assigned[a].1,
    ) by {
        assert(st.params[st.assigned[a].0 - 1] == st.assigned[a].1);
    }
    assert forall|n: Seq<char>| #[trigger]
        st.params.to_set().contains(n) == assigned_names(st).contains(n) by {
        if st.params.to_set().contains(n) {
            let j = choose|j: int| 0 <= j < st.params.len() && st.params[j] == n;
            assert(name_assigned(st, st.params[j]));
        }
        if assigned_names(st).contains(n) {
            let a = choose|a: int| 0 <= a < st.assigned.len() && st.assigned[a].1 == n;
            assert(st.params[st.assigned[a].0 - 1] == st.assigned[a].1);
            assert(st.params.contains(n));
        }
    }
    assert(st.params.to_set() =~= assigned_names(st));
    st.params.unique_seq_to_set();
}

/// Rewriter law: the positional numbers agree with the parameter list.
/// Every occurrence rewritten to `$k` has `1 <= k <= params.len()` and
/// `params[k - 1]` is that occurrence's name.
pub proof fn lemma_rewrite_assignment_order(s: Seq<char>)
    ensures
        forall|a: int|
            0 <= a < spec_rewrite(s).assigned.len() ==> {
                let occ = #[trigger] spec_rewrite(s).assigned[a];
                1 <= occ.0 <= spec_rewrite(s).params.len() && spec_rewrite(s).params[occ.0 - 1]
                    == occ.1
            },
{
    lemma_process_segments_properties(spec_split(s), 0, Seq::empty());
}

/// Positions that hold no quote character do not end a segment.
proof fn lemma_split_from_skip(s: Seq<char>, last: int, i: int, j: int, sq: bool, dq: bool)
    requires
        0 <= i <= j <= s.len(),
        forall|t: int| i <= t < j ==> s[t] != '\'' && s[t] != '"',
    ensures
        spec_split_from(s, last, i, sq, dq) == spec_split_from(s, last, j, sq, dq),
    decreases j - i,
{
    if i < j {
        lemma_split_from_skip(s, last, i + 1, j, sq, dq);
    }
}

/// A segment without a colon is left untouched by the scan.
proof fn lemma_scan_no_colon(s: Seq<char>, i: int, params: Seq<Seq<char>>)
    requires
        0 <= i <= s.len(),
        forall|t: int| i <= t < s.len() ==> s[t] != ':',
    ensures
        scan_segment(s, i, params) == (RewriteState {
            rewritten: s.subrange(i, s.len() as int),
            params,
            assigned: Seq::empty(),
        }),
    decreases s.len() - i,
{
    let st = scan_segment(s, i, params);
    if !(0 <= i < s.len()) {
        assert(st.rewritten =~= s.subrange(i, s.len() as int));
    } else {
        assert(!placeholder_at(s, i));
        lemma_scan_no_colon(s, i + 1, params);
        assert(st.rewritten =~= s.subrange(i, s.len() as int));
    }
}

/// Rewriter law, literal safety for string literals: a single-quoted
/// literal — whatever it holds, placeholders included — passes through the
/// rewriter unchanged and yields no parameter.
pub proof fn lemma_rewrite_single_quoted_literal(s: Seq<char>)
    requires
        s.len() >= 2,
        s[0] == '\'',
        s[s.len() - 1] == '\'',
        forall|t: int| 1 <= t < s.len() - 1 ==> s[t] != '\'' && s[t] != '"',
    ensures
        spec_rewrite(s).rewritten == s,
        spec_rewrite(s).params == Seq::<Seq<char>>::empty(),
{
    let len = s.len() as int;
    lemma_split_from_skip(s, 1, 1, len - 1, false, false);
    assert(spec_split_from(s, 1, len - 1, false, false) == seq![s.subrange(1, len - 1)]
        + spec_split_from(s, len - 1, len, true, false));
    assert(spec_split_from(s, len - 1, len, true, false) == seq![s.subrange(len - 1, len)]);
    let segs = spec_split(s);
    assert(segs =~= seq![s.take(1), s.subrange(1, len - 1), s.subrange(len - 1, len)]);

    let quote = s.take(1);
    assert(forall|t: int| 0 <= t < quote.len() ==> quote[t] != ':');
    lemma_scan_no_colon(quote, 0, Seq::empty());
    assert(quote.subrange(0, quote.len() as int) =~= quote);
    let st0 = scan_segment(quote, 0, Seq::empty());
    assert(st0.rewritten == quote);

    let tail = s.subrange(len - 1, len);
    assert(forall|t: int| 0 <= t < tail.len() ==> tail[t] != ':');
    lemma_scan_no_colon(tail, 0, Seq::empty());
    assert(tail.subrange(0, tail.len() as int) =~= tail);
    let st2 = scan_segment(tail, 0, Seq::empty());
    assert(st2.rewritten == tail);

    assert(process_segments(segs, 3, Seq::empty()) == RewriteState {
        rewritten: Seq::<char>::empty(),
        params: Seq::empty(),
        assigned: Seq::empty(),
    });
    assert(process_segments(segs, 2, Seq::empty()).rewritten =~= tail);
    assert(process_segments(segs, 2, Seq::empty()).params == Seq::<Seq<char>>::empty());
    assert(process_segments(segs, 1, Seq::empty()).rewritten =~= s.subrange(1, len - 1) + tail);
    assert(process_segments(segs, 1, Seq::empty()).params == Seq::<Seq<char>>::empty());
    assert(spec_rewrite(s).rewritten =~= quote + (s.subrange(1, len - 1) + tail));
    assert(quote + (s.subrange(1, len - 1) + tail) =~= s);
}

/// Rewriter law, literal safety for quoted identifiers: a double-quoted
/// identifier — whatever it holds — passes through the rewriter unchanged
/// and yields no parameter.
pub proof fn lemma_rewrite_double_quoted_literal(s: Seq<char>)
    requires
        s.len() >= 2,
        s[0] == '"',
        s[s.len() - 1] == '"',
        forall|t: int| 1 <= t < s.len() - 1 ==> s[t] != '\'' && s[t] != '"',
    ensures
        spec_rewrite(s).rewritten == s,
        spec_rewrite(s).params == Seq::<Seq<char>>::empty(),
{
    let len = s.len() as int;
    lemma_split_from_skip(s, 0, 1, len - 1, false, true);
    assert(spec_split(s) == seq![s.subrange(0, 0)] + spec_split_from(s, 0, 1, false, true));
    assert(spec_split_from(s, 0, len - 1, false, true) == seq![s.subrange(0, len)]
        + spec_split_from(s, len, len, false, false));
    assert(spec_split_from(s, len, len, false, false) == seq![s.subrange(len, len)]);
    let segs = spec_split(s);
    assert(segs =~= seq![s.subrange(0, 0), s.subrange(0, len), s.subrange(len, len)]);

    let empty = s.subrange(0, 0);
    assert(empty =~= Seq::<char>::empty());
    lemma_scan_no_colon(empty, 0, Seq::empty());
    assert(empty.subrange(0, 0) =~= empty);

    assert(process_segments(segs, 3, Seq::empty()) == RewriteState {
        rewritten: Seq::<char>::empty(),
        params: Seq::empty(),
        assigned: Seq::empty(),
    });
    assert(process_segments(segs, 2, Seq::empty()).rewritten =~= Seq::<char>::empty());
    assert(process_segments(segs, 2, Seq::empty()).params == Seq::<Seq<char>>::empty());
    assert(process_segments(segs, 1, Seq::empty()).rewritten =~= s.subrange(0, len));
    assert(process_segments(segs, 1, Seq::empty()).params == Seq::<Seq<char>>::empty());
    assert(spec_rewrite(s).rewritten =~= empty + s.subrange(0, len));
    assert(empty + s.subrange(0, len) =~= s);
}

fn exec_is_ident_start(c: char) -> (r: bool)
    ensures
        r == is_ident_start(c),
{
    ('a' <= c && c <= 'z') || ('A' <= c && c <= 'Z') || c == '_'
}

fn exec_is_ident_char(c: char) -> (r: bool)
    ensures
        r == is_ident_char(c),
{
    exec_is_ident_start(c) || ('0' <= c && c <= '9')
}

proof fn lemma_param_index_at(p: Seq<Seq<char>>, n: Seq<char>, k: int)
    requires
        0 <= k < p.len(),
        p[k] == n,
        forall|j: int| 0 <= j < k ==> p[j] != n,
    ensures
        contains_name(p, n),
        param_index(p, n) == k,
    decreases k,
{
    if k == 0 {
    } else {
        assert(p[0] != n);
        lemma_param_index_at(p.drop_first(), n, k - 1);
    }
}

proof fn lemma_param_index_none(p: Seq<Seq<char>>, n: Seq<char>)
    requires
        forall|j: int| 0 <= j < p.len() ==> p[j] != n,
    ensures
        !contains_name(p, n),
        param_index(p, n) == p.len(),
    decreases p.len(),
{
    if p.len() == 0 {
    } else {
        assert(p[0] != n);
        lemma_param_index_none(p.drop_first(), n);
    }
}

/// The position of `name` in `params`, or `params.len()` when absent.
fn find_param(params: &Vec<String>, name: &String) -> (idx: usize)
    ensures
        idx as int == param_index(params.deep_view(), name@),
        idx <= params.len(),
        (idx < params.len()) == contains_name(params.deep_view(), name@),
{
    let len = params.len();
    let mut k: usize = 0;
    while k < len
        invariant
            len == params.len(),
            k <= len,
            forall|j: int| 0 <= j < k ==> params.deep_view()[j] != name@,
        decreases len - k,
    {
        if params[k].eq(name) {
            proof {
                assert(params.deep_view()[k as int] == params@[k as int]@);
                lemma_param_index_at(params.deep_view(), name@, k as int);
            }
            return k;
        }
        proof {
            assert(params.deep_view()[k as int] == params@[k as int]@);
        }
        k = k + 1;
    }
    proof {
        lemma_param_index_none(params.deep_view(), name@);
    }
    len
}

/// Rewrites one outside-literal segment into `out`, assigning positional
/// numbers from `params`.
fn rewrite_segment(seg: &str, out: &mut String, params: &mut Vec<String>)
    ensures
        final(out)@ == old(out)@ + scan_segment(seg@, 0, old(params).deep_view()).rewritten,
        final(params).deep_view() == scan_segment(seg@, 0, old(params).deep_view()).params,
{
    let len = seg.unicode_len();
    let mut i: usize = 0;
    while i < len
        invariant
            len == seg@.len(),
            i <= len,
            scan_segment(seg@, 0, old(params).deep_view()).params == scan_segment(
                seg@,
                i as int,
                params.deep_view(),
            ).params,
            old(out)@ + scan_segment(seg@, 0, old(params).deep_view()).rewritten == out@
                + scan_segment(seg@, i as int, params.deep_view()).rewritten,
        decreases len - i,
    {
        let c = seg.get_char(i);
        let is_placeholder = c == ':' && i + 1 < len && exec_is_ident_start(seg.get_char(i + 1))
            && (i == 0 || seg.get_char(i - 1) != ':');
        if is_placeholder {
            assert(placeholder_at(seg@, i as int));
            let mut j = i + 1;
            while j < len && exec_is_ident_char(seg.get_char(j))
                invariant
                    len == seg@.len(),
                    i + 1 <= j <= len,
                    ident_end(seg@, i + 1) == ident_end(seg@, j as int),
                decreases len - j,
            {
                j = j + 1;
            }
            assert(ident_end(seg@, i + 1) == j as int);
            let name = seg.substring_char(i + 1, j).to_owned();
            let ghost old_pdv = params.deep_view();
            let idx = find_param(params, &name);
            let k1: usize;
            if idx == params.len() {
                params.push(name);
                k1 = params.len();
                proof {
                    assert(params.deep_view() =~= old_pdv.push(name@));
                }
            } else {
                k1 = idx + 1;
            }
            out.append("$");
            let num = usize_to_dec(k1);
            out.append(num.as_str());
            proof {
                reveal_strlit("$");
                let st = scan_segment(seg@, i as int, old_pdv);
                assert(seg@.subrange(i + 1 as int, j as int) == name@);
                assert(st.rewritten == seq!['$'] + spec_dec_digits(k1 as nat) + scan_segment(
                    seg@,
                    j as int,
                    params.deep_view(),
                ).rewritten);
            }
            i = j;
        } else {
            let piece = seg.substring_char(i, i + 1);
            out.append(piece);
            proof {
                assert(seq![seg@[i as int]] =~= seg@.subrange(i as int, i + 1 as int));
            }
            i = i + 1;
        }
    }
}

/// Rewrites `:name` placeholders to PostgreSQL's positional `$N` form.
///
/// Placeholders inside `'…'` and `"…"` literals pass through untouched, a
/// `:` directly after another `:` is the cast operator and is not a
/// placeholder, and every later occurrence of a name reuses the number its
/// first occurrence was given.
pub fn parse_into_postgres(query: &str) -> (r: ParametrizedQuery)
    ensures
        r.raw_query@ == spec_rewrite(query@).rewritten,
        r.params.deep_view() == spec_rewrite(query@).params,
{
    let segments = split_query(query);
    let mut out = String::new();
    let mut params: Vec<String> = Vec::new();
    let mut idx: usize = 0;
    let n = segments.len();
    proof {
        assert(params.deep_view() =~= Seq::<Seq<char>>::empty());
        assert(out@ + process_segments(segments.deep_view(), 0, params.deep_view()).rewritten
            =~= process_segments(segments.deep_view(), 0, params.deep_view()).rewritten);
    }
    while idx < n
        invariant
            n == segments.len(),
            idx <= n,
            spec_rewrite(query@).params == process_segments(
                segments.deep_view(),
                idx as int,
                params.deep_view(),
            ).params,
            spec_rewrite(query@).rewritten == out@ + process_segments(
                segments.deep_view(),
                idx as int,
                params.deep_view(),
            ).rewritten,
            segments.deep_view() == spec_split(query@),
        decreases n - idx,
    {
        proof {
            assert(segments.deep_view()[idx as int] == segments@[idx as int]@);
        }
        if idx % 2 == 1 {
            out.append(segments[idx].as_str());
        } else {
            let seg = &segments[idx];
            rewrite_segment(seg.as_str(), &mut out, &mut params);
        }
        idx = idx + 1;
    }
    ParametrizedQuery { raw_query: out, params }
}


/// The parts joined with `sep` between them.
pub open spec fn spec_join(parts: Seq<Seq<char>>, sep: Seq<char>) -> Seq<char>
    decreases parts.len(),
{
    if parts.len() == 0 {
        Seq::empty()
    } else if parts.len() == 1 {
        parts[0]
    } else {
        spec_join(parts.drop_last(), sep) + sep + parts.last()
    }
}

/// Joins strings with a separator.
pub fn join_strings(parts: &Vec<String>, sep: &str) -> (r: String)
    ensures
        r@ == spec_join(parts.deep_view(), sep@),
{
    let mut out = String::new();
    let n = parts.len();
    let mut i: usize = 0;
    while i < n
        invariant
            n == parts.len(),
            i <= n,
            out@ == spec_join(parts.deep_view().take(i as int), sep@),
        decreases n - i,
    {
        proof {
            assert(parts.deep_view()[i as int] == parts@[i as int]@);
            assert(parts.deep_view().take(i + 1).drop_last() =~= parts.deep_view().take(i as int));
            assert(parts.deep_view().take(i + 1).last() == parts.deep_view()[i as int]);
        }
        if i > 0 {
            out.append(sep);
        }
        out.append(parts[i].as_str());
        proof {
            if i == 0 {
                assert(out@ =~= spec_join(parts.deep_view().take(1), sep@));
            }
        }
        i = i + 1;
    }
    proof {
        assert(parts.deep_view().take(n as int) =~= parts.deep_view());
    }
    out
}

/// Lexicographic order on character sequences, by code point.
pub open spec fn spec_str_lt(a: Seq<char>, b: Seq<char>) -> bool
    decreases a.len(),
{
    if b.len() == 0 {
        false
    } else if a.len() == 0 {
        true
    } else if a.first() != b.first() {
        (a.first() as u32) < (b.first() as u32)
    } else {
        spec_str_lt(a.drop_first(), b.drop_first())
    }
}

/// Compares two strings in the lexicographic order of their characters.
pub fn str_lt(a: &str, b: &str) -> (r: bool)
    ensures
        r == spec_str_lt(a@, b@),
{
    let alen = a.unicode_len();
    let blen = b.unicode_len();
    let mut i: usize = 0;
    proof {
        assert(a@.skip(0) =~= a@);
        assert(b@.skip(0) =~= b@);
    }
    loop
        invariant
            alen == a@.len(),
            blen == b@.len(),
            i <= alen,
            i <= blen,
            spec_str_lt(a@, b@) == spec_str_lt(a@.skip(i as int), b@.skip(i as int)),
        decreases alen - i,
    {
        if i >= blen {
            proof {
                assert(b@.skip(i as int).len() == 0);
            }
            return false;
        }
        if i >= alen {
            proof {
                assert(a@.skip(i as int).len() == 0);
                assert(b@.skip(i as int).len() > 0);
            }
            return true;
        }
        let ca = a.get_char(i);
        let cb = b.get_char(i);
        proof {
            assert(a@.skip(i as int).first() == a@[i as int]);
            assert(b@.skip(i as int).first() == b@[i as int]);
            assert(a@.skip(i as int).drop_first() =~= a@.skip(i + 1));
            assert(b@.skip(i as int).drop_first() =~= b@.skip(i + 1));
        }
        if ca != cb {
            return (ca as u32) < (cb as u32);
        }
        i = i + 1;
    }
}

} // verus!
