//! Deterministic encoding of listing filters into a wire-level query string.
//!
//! A listing is an ordered sequence of named filter values; the encoder turns
//! it into `path` when every filter is absent and `path?k1=v1&k2=v2&...`
//! otherwise. The exact text of every contribution is pinned down by the
//! spec functions in this module.

use vstd::prelude::*;

verus! {

/// Relies on std's `String::push`: appends the given character to the end of
/// the string.
#[verifier::external_body]
fn push_char(s: &mut String, c: char)
    ensures
        final(s)@ == old(s)@ + seq![c],
{
    s.push(c);
}

/// The decimal digit character for a value below ten.
pub open spec fn spec_digit(d: int) -> char {
    if d == 0 {
        '0'
    } else if d == 1 {
        '1'
    } else if d == 2 {
        '2'
    } else if d == 3 {
        '3'
    } else if d == 4 {
        '4'
    } else if d == 5 {
        '5'
    } else if d == 6 {
        '6'
    } else if d == 7 {
        '7'
    } else if d == 8 {
        '8'
    } else {
        '9'
    }
}

fn digit_char(d: u64) -> (c: char)
    requires
        d < 10,
    ensures
        c == spec_digit(d as int),
{
    match d {
        0 => '0',
        1 => '1',
        2 => '2',
        3 => '3',
        4 => '4',
        5 => '5',
        6 => '6',
        7 => '7',
        8 => '8',
        _ => '9',
    }
}

/// The decimal representation of a non-negative integer, most significant
/// digit first, with no leading zeros (a single `0` for zero).
pub open spec fn spec_u64_dec(n: int) -> Seq<char>
    decreases n,
{
    if n < 10 {
        seq![spec_digit(n)]
    } else {
        spec_u64_dec(n / 10) + seq![spec_digit(n % 10)]
    }
}

/// The decimal representation of a signed integer: a leading `-` for
/// negative values, then the digits of the absolute value.
pub open spec fn spec_i64_dec(n: int) -> Seq<char> {
    if n >= 0 {
        spec_u64_dec(n)
    } else {
        seq!['-'] + spec_u64_dec(-n)
    }
}

fn append_u64_dec(out: &mut String, n: u64)
    ensures
        final(out)@ == old(out)@ + spec_u64_dec(n as int),
    decreases n,
{
    if n < 10 {
        push_char(out, digit_char(n));
    } else {
        append_u64_dec(out, n / 10);
        push_char(out, digit_char(n % 10));
        proof {
            assert(final(out)@ == old(out)@ + spec_u64_dec(n as int)) by {
                assert(old(out)@ + spec_u64_dec(n as int / 10) + seq![
                    spec_digit(n as int % 10),
                ] =~= old(out)@ + spec_u64_dec(n as int));
            }
        }
    }
}

/// Appends the decimal representation of a signed integer.
pub fn append_i64_dec(out: &mut String, n: i64)
    ensures
        final(out)@ == old(out)@ + spec_i64_dec(n as int),
{
    if n >= 0 {
        append_u64_dec(out, n as u64);
    } else {
        push_char(out, '-');
        let m: u64 = if n == i64::MIN {
            9223372036854775808u64
        } else {
            (-n) as u64
        };
        assert(m as int == -(n as int));
        append_u64_dec(out, m);
        proof {
            assert(final(out)@ =~= old(out)@ + spec_i64_dec(n as int));
        }
    }
}

/// Characters kept verbatim by query-value escaping: the RFC 3986 unreserved
/// set, plus `/`, which needs no escaping inside a query component.
pub open spec fn query_safe(c: char) -> bool {
    ('a' <= c && c <= 'z') || ('A' <= c && c <= 'Z') || ('0' <= c && c <= '9') || c == '-' || c
        == '.' || c == '_' || c == '~' || c == '/'
}

/// The uppercase hexadecimal digit character for a value below sixteen.
pub open spec fn spec_hex_digit(d: int) -> char {
    if d < 10 {
        spec_digit(d)
    } else if d == 10 {
        'A'
    } else if d == 11 {
        'B'
    } else if d == 12 {
        'C'
    } else if d == 13 {
        'D'
    } else if d == 14 {
        'E'
    } else {
        'F'
    }
}

fn hex_digit_char(d: u8) -> (c: char)
    requires
        d < 16,
    ensures
        c == spec_hex_digit(d as int),
{
    match d {
        0 => '0',
        1 => '1',
        2 => '2',
        3 => '3',
        4 => '4',
        5 => '5',
        6 => '6',
        7 => '7',
        8 => '8',
        9 => '9',
        10 => 'A',
        11 => 'B',
        12 => 'C',
        13 => 'D',
        14 => 'E',
        _ => 'F',
    }
}

/// `%XX` with the byte's value in uppercase hexadecimal.
pub open spec fn spec_escape_byte(b: u8) -> Seq<char> {
    seq!['%', spec_hex_digit(b as int / 16), spec_hex_digit(b as int % 16)]
}

/// Percent-escapes of every byte in the sequence, in order.
pub open spec fn spec_escape_bytes(bs: Seq<u8>) -> Seq<char>
    decreases bs.len(),
{
    if bs.len() == 0 {
        Seq::empty()
    } else {
        spec_escape_byte(bs[0]) + spec_escape_bytes(bs.drop_first())
    }
}

/// One character of free text as it appears in a query value: kept verbatim
/// when safe, a space as `+`, anything else as the percent-escapes of its
/// UTF-8 bytes.
pub open spec fn spec_escape_char(c: char) -> Seq<char> {
    if query_safe(c) {
        seq![c]
    } else if c == ' ' {
        seq!['+']
    } else {
        spec_escape_bytes(vstd::utf8::encode_scalar(c as u32))
    }
}

/// Free text escaped for use as a query value. `/` is kept verbatim here;
/// path-segment escaping treats it differently.
pub open spec fn spec_escape_text(s: Seq<char>) -> Seq<char>
    decreases s.len(),
{
    if s.len() == 0 {
        Seq::empty()
    } else {
        spec_escape_char(s[0]) + spec_escape_text(s.drop_first())
    }
}

proof fn lemma_escape_bytes_unfold(bs: Seq<u8>)
    requires
        1 <= bs.len() <= 4,
    ensures
        bs.len() == 1 ==> spec_escape_bytes(bs) == spec_escape_byte(bs[0]),
        bs.len() == 2 ==> spec_escape_bytes(bs) == spec_escape_byte(bs[0]) + spec_escape_byte(
            bs[1],
        ),
        bs.len() == 3 ==> spec_escape_bytes(bs) == spec_escape_byte(bs[0]) + spec_escape_byte(
            bs[1],
        ) + spec_escape_byte(bs[2]),
        bs.len() == 4 ==> spec_escape_bytes(bs) == spec_escape_byte(bs[0]) + spec_escape_byte(
            bs[1],
        ) + spec_escape_byte(bs[2]) + spec_escape_byte(bs[3]),
    decreases bs.len(),
{
    if bs.len() == 1 {
        assert(spec_escape_bytes(bs.drop_first()) == Seq::<char>::empty());
        assert(spec_escape_bytes(bs) =~= spec_escape_byte(bs[0]));
    } else {
        lemma_escape_bytes_unfold(bs.drop_first());
        if bs.len() == 2 {
            assert(spec_escape_bytes(bs) =~= spec_escape_byte(bs[0]) + spec_escape_byte(bs[1]));
        } else if bs.len() == 3 {
            assert(spec_escape_bytes(bs) =~= spec_escape_byte(bs[0]) + spec_escape_byte(bs[1])
                + spec_escape_byte(bs[2]));
        } else {
            assert(spec_escape_bytes(bs) =~= spec_escape_byte(bs[0]) + spec_escape_byte(bs[1])
                + spec_escape_byte(bs[2]) + spec_escape_byte(bs[3]));
        }
    }
}

fn append_escaped_byte(out: &mut String, b: u8)
    ensures
        final(out)@ == old(out)@ + spec_escape_byte(b),
{
    push_char(out, '%');
    push_char(out, hex_digit_char(b / 16));
    push_char(out, hex_digit_char(b % 16));
    proof {
        assert(final(out)@ =~= old(out)@ + spec_escape_byte(b));
    }
}

fn is_query_safe_char(c: char) -> (r: bool)
    ensures
        r == query_safe(c),
{
    ('a' <= c && c <= 'z') || ('A' <= c && c <= 'Z') || ('0' <= c && c <= '9') || c == '-' || c
        == '.' || c == '_' || c == '~' || c == '/'
}

fn append_escaped_char(out: &mut String, c: char)
    ensures
        final(out)@ == old(out)@ + spec_escape_char(c),
{
    if is_query_safe_char(c) {
        push_char(out, c);
    } else if c == ' ' {
        push_char(out, '+');
    } else {
        let u = c as u32;
        if u < 0x80 {
            let b0: u8 = (u & 0x7F) as u8;
            append_escaped_byte(out, b0);
            proof {
                let bs = vstd::utf8::encode_scalar(c as u32);
                assert(bs =~= seq![b0]);
                lemma_escape_bytes_unfold(bs);
                assert(final(out)@ =~= old(out)@ + spec_escape_char(c));
            }
        } else if u < 0x800 {
            let b0: u8 = 0xC0 | ((u >> 6) & 0x1F) as u8;
            let b1: u8 = 0x80 | (u & 0x3F) as u8;
            append_escaped_byte(out, b0);
            append_escaped_byte(out, b1);
            proof {
                let bs = vstd::utf8::encode_scalar(c as u32);
                assert(bs =~= seq![b0, b1]);
                lemma_escape_bytes_unfold(bs);
                assert(final(out)@ =~= old(out)@ + spec_escape_char(c));
            }
        } else if u < 0x10000 {
            let b0: u8 = 0xE0 | ((u >> 12) & 0x0F) as u8;
            let b1: u8 = 0x80 | ((u >> 6) & 0x3F) as u8;
            let b2: u8 = 0x80 | (u & 0x3F) as u8;
            append_escaped_byte(out, b0);
            append_escaped_byte(out, b1);
            append_escaped_byte(out, b2);
            proof {
                let bs = vstd::utf8::encode_scalar(c as u32);
                assert(bs =~= seq![b0, b1, b2]);
                lemma_escape_bytes_unfold(bs);
                assert(final(out)@ =~= old(out)@ + spec_escape_char(c));
            }
        } else {
            let b0: u8 = 0xF0 | ((u >> 18) & 0x07) as u8;
            let b1: u8 = 0x80 | ((u >> 12) & 0x3F) as u8;
            let b2: u8 = 0x80 | ((u >> 6) & 0x3F) as u8;
            let b3: u8 = 0x80 | (u & 0x3F) as u8;
            append_escaped_byte(out, b0);
            append_escaped_byte(out, b1);
            append_escaped_byte(out, b2);
            append_escaped_byte(out, b3);
            proof {
                let bs = vstd::utf8::encode_scalar(c as u32);
                assert(bs =~= seq![b0, b1, b2, b3]);
                lemma_escape_bytes_unfold(bs);
                assert(final(out)@ =~= old(out)@ + spec_escape_char(c));
            }
        }
    }
}

proof fn lemma_escape_text_push(s: Seq<char>, c: char)
    ensures
        spec_escape_text(s.push(c)) == spec_escape_text(s) + spec_escape_char(c),
    decreases s.len(),
{
    if s.len() == 0 {
        assert(s.push(c)[0] == c);
        assert(spec_escape_text(s.push(c).drop_first()) == Seq::<char>::empty());
        assert(spec_escape_text(s.push(c)) =~= spec_escape_text(s) + spec_escape_char(c));
    } else {
        assert(s.push(c).drop_first() =~= s.drop_first().push(c));
        assert(s.push(c)[0] == s[0]);
        lemma_escape_text_push(s.drop_first(), c);
        assert(spec_escape_text(s.push(c)) == spec_escape_char(s[0]) + (spec_escape_text(
            s.drop_first(),
        ) + spec_escape_char(c)));
        assert(spec_escape_text(s) == spec_escape_char(s[0]) + spec_escape_text(s.drop_first()));
        vstd::seq_lib::lemma_concat_associative(
            spec_escape_char(s[0]),
            spec_escape_text(s.drop_first()),
            spec_escape_char(c),
        );
        assert(spec_escape_char(s[0]) + (spec_escape_text(s.drop_first()) + spec_escape_char(c))
            == (spec_escape_char(s[0]) + spec_escape_text(s.drop_first())) + spec_escape_char(c));
        assert(spec_escape_text(s.push(c)) == spec_escape_text(s) + spec_escape_char(c));
    }
}

/// An identifier placed inside a single path segment: the `/` separator is
/// percent-encoded to `%2F`, so a namespaced identifier such as
/// `group/project` stays one segment; every other character is kept verbatim.
/// A query value, by contrast, keeps `/` unescaped (`spec_escape_text`).
pub open spec fn spec_escape_segment(s: Seq<char>) -> Seq<char>
    decreases s.len(),
{
    if s.len() == 0 {
        Seq::empty()
    } else {
        (if s[0] == '/' {
            seq!['%', '2', 'F']
        } else {
            seq![s[0]]
        }) + spec_escape_segment(s.drop_first())
    }
}

proof fn lemma_escape_segment_push(s: Seq<char>, c: char)
    ensures
        spec_escape_segment(s.push(c)) == spec_escape_segment(s) + (if c == '/' {
            seq!['%', '2', 'F']
        } else {
            seq![c]
        }),
    decreases s.len(),
{
    let tail: Seq<char> = if c == '/' {
        seq!['%', '2', 'F']
    } else {
        seq![c]
    };
    if s.len() == 0 {
        assert(s.push(c)[0] == c);
        assert(spec_escape_segment(s.push(c).drop_first()) == Seq::<char>::empty());
        assert(spec_escape_segment(s.push(c)) =~= spec_escape_segment(s) + tail);
    } else {
        assert(s.push(c).drop_first() =~= s.drop_first().push(c));
        assert(s.push(c)[0] == s[0]);
        lemma_escape_segment_push(s.drop_first(), c);
        let head: Seq<char> = if s[0] == '/' {
            seq!['%', '2', 'F']
        } else {
            seq![s[0]]
        };
        assert(spec_escape_segment(s.push(c)) == head + (spec_escape_segment(s.drop_first())
            + tail));
        assert(spec_escape_segment(s) == head + spec_escape_segment(s.drop_first()));
        vstd::seq_lib::lemma_concat_associative(head, spec_escape_segment(s.drop_first()), tail);
        assert(spec_escape_segment(s.push(c)) == spec_escape_segment(s) + tail);
    }
}

/// Appends the given identifier to the string as one escaped path segment.
pub fn append_escaped_segment(out: &mut String, s: &str)
    ensures
        final(out)@ == old(out)@ + spec_escape_segment(s@),
{
    let n = s.unicode_len();
    let mut i: usize = 0;
    while i < n
        invariant
            n == s@.len(),
            i <= n,
            out@ == old(out)@ + spec_escape_segment(s@.take(i as int)),
        decreases n - i,
    {
        let c = s.get_char(i);
        if c == '/' {
            push_char(out, '%');
            push_char(out, '2');
            push_char(out, 'F');
        } else {
            push_char(out, c);
        }
        proof {
            lemma_escape_segment_push(s@.take(i as int), c);
            assert(s@.take(i as int).push(c) =~= s@.take(i as int + 1));
            assert(out@ =~= old(out)@ + spec_escape_segment(s@.take(i as int + 1)));
        }
        i = i + 1;
    }
    proof {
        assert(s@.take(n as int) =~= s@);
    }
}

fn append_escaped_text(out: &mut String, s: &str)
    ensures
        final(out)@ == old(out)@ + spec_escape_text(s@),
{
    let n = s.unicode_len();
    let mut i: usize = 0;
    while i < n
        invariant
            n == s@.len(),
            i <= n,
            out@ == old(out)@ + spec_escape_text(s@.take(i as int)),
        decreases n - i,
    {
        let c = s.get_char(i);
        append_escaped_char(out, c);
        proof {
            lemma_escape_text_push(s@.take(i as int), c);
            assert(s@.take(i as int).push(c) =~= s@.take(i as int + 1));
        }
        i = i + 1;
    }
    proof {
        assert(s@.take(n as int) =~= s@);
    }
}

/// One present filter value, borrowed from the listing that owns it.
///
/// Absent filters never enter a pair list: a listing contributes a pair only
/// for each of its fields that is set, in the resource's declared order.
#[derive(Clone, Copy)]
pub enum FilterValue<'a> {
    /// Serializes as the literal `true` or `false`.
    Flag(bool),
    /// Serializes as its decimal representation.
    Num(i64),
    /// Free text, percent-escaped as a query value.
    Text(&'a str),
    /// A fixed wire token (an enum's wire name), emitted verbatim.
    Token(&'static str),
    /// An ordered integer list: one element as `name=v`, several as
    /// `name[]=v` repeated and joined by `&`, none as nothing at all.
    NumList(&'a Vec<i64>),
    /// An ordered text list joined by `,` under a single `name=` key;
    /// empty lists are omitted entirely.
    CommaList(&'a Vec<String>),
}

/// The mathematical value of one filter.
pub enum FilterSpec {
    Flag(bool),
    Num(int),
    Text(Seq<char>),
    Token(Seq<char>),
    NumList(Seq<i64>),
    CommaList(Seq<Seq<char>>),
}

impl<'a> View for FilterValue<'a> {
    type V = FilterSpec;

    open spec fn view(&self) -> FilterSpec {
        match self {
            FilterValue::Flag(b) => FilterSpec::Flag(*b),
            FilterValue::Num(n) => FilterSpec::Num(*n as int),
            FilterValue::Text(t) => FilterSpec::Text(t@),
            FilterValue::Token(t) => FilterSpec::Token(t@),
            FilterValue::NumList(ns) => FilterSpec::NumList(ns@),
            FilterValue::CommaList(ts) => FilterSpec::CommaList(ts.deep_view()),
        }
    }
}

/// The `name[]=v&name[]=v&...` text for the list elements from position `i`
/// on.
pub open spec fn spec_num_items_from(name: Seq<char>, ns: Seq<i64>, i: int) -> Seq<char>
    decreases ns.len() - i,
{
    if i < 0 || i >= ns.len() {
        Seq::empty()
    } else if i == ns.len() - 1 {
        name + "[]="@ + spec_i64_dec(ns[i] as int)
    } else {
        name + "[]="@ + spec_i64_dec(ns[i] as int) + "&"@ + spec_num_items_from(name, ns, i + 1)
    }
}

/// An integer-list filter: nothing when empty, `name=v` for one element,
/// the `name[]=` array form for several.
pub open spec fn spec_num_list(name: Seq<char>, ns: Seq<i64>) -> Seq<char> {
    if ns.len() == 0 {
        Seq::empty()
    } else if ns.len() == 1 {
        name + "="@ + spec_i64_dec(ns[0] as int)
    } else {
        spec_num_items_from(name, ns, 0)
    }
}

/// The escaped list elements from position `i` on, joined by `,`.
pub open spec fn spec_comma_items_from(ts: Seq<Seq<char>>, i: int) -> Seq<char>
    decreases ts.len() - i,
{
    if i < 0 || i >= ts.len() {
        Seq::empty()
    } else if i == ts.len() - 1 {
        spec_escape_text(ts[i])
    } else {
        spec_escape_text(ts[i]) + ","@ + spec_comma_items_from(ts, i + 1)
    }
}

/// A comma-joined text-list filter: nothing when empty, otherwise a single
/// `name=` key with the escaped elements joined by `,`.
pub open spec fn spec_comma_list(name: Seq<char>, ts: Seq<Seq<char>>) -> Seq<char> {
    if ts.len() == 0 {
        Seq::empty()
    } else {
        name + "="@ + spec_comma_items_from(ts, 0)
    }
}

/// What one named filter contributes to the query, with no separator around
/// it; the empty sequence when the filter contributes nothing.
pub open spec fn spec_contribution(name: Seq<char>, v: FilterSpec) -> Seq<char> {
    match v {
        FilterSpec::Flag(b) => name + "="@ + (if b {
            "true"@
        } else {
            "false"@
        }),
        FilterSpec::Num(n) => name + "="@ + spec_i64_dec(n),
        FilterSpec::Text(t) => name + "="@ + spec_escape_text(t),
        FilterSpec::Token(t) => name + "="@ + t,
        FilterSpec::NumList(ns) => spec_num_list(name, ns),
        FilterSpec::CommaList(ts) => spec_comma_list(name, ts),
    }
}

/// The name/value views of a pair list.
pub open spec fn spec_pairs_of(pairs: Seq<(&str, FilterValue)>) -> Seq<(Seq<char>, FilterSpec)> {
    pairs.map_values(|p: (&str, FilterValue)| (p.0@, p.1@))
}

/// The contributions of the pairs from position `i` on, each non-empty one
/// separated from the next by `&`; empty contributions disappear without a
/// separator.
pub open spec fn spec_filters_from(pairs: Seq<(Seq<char>, FilterSpec)>, i: int) -> Seq<char>
    decreases pairs.len() - i,
{
    if i < 0 || i >= pairs.len() {
        Seq::empty()
    } else {
        let head = spec_contribution(pairs[i].0, pairs[i].1);
        let rest = spec_filters_from(pairs, i + 1);
        if head.len() == 0 {
            rest
        } else if rest.len() == 0 {
            head
        } else {
            head + "&"@ + rest
        }
    }
}

/// The whole encoded query: the bare path when every filter contributes
/// nothing, otherwise the path, one `?`, and the joined contributions.
pub open spec fn spec_encode(path: Seq<char>, pairs: Seq<(Seq<char>, FilterSpec)>) -> Seq<char> {
    let filters = spec_filters_from(pairs, 0);
    if filters.len() == 0 {
        path
    } else {
        path + "?"@ + filters
    }
}

fn append_num_items(out: &mut String, name: &str, ns: &Vec<i64>, i: usize)
    requires
        i < ns@.len(),
    ensures
        final(out)@ == old(out)@ + spec_num_items_from(name@, ns@, i as int),
    decreases ns@.len() - i,
{
    out.append(name);
    out.append("[]=");
    append_i64_dec(out, ns[i]);
    if i < ns.len() - 1 {
        out.append("&");
        append_num_items(out, name, ns, i + 1);
        proof {
            assert(final(out)@ =~= old(out)@ + spec_num_items_from(name@, ns@, i as int));
        }
    } else {
        proof {
            assert(final(out)@ =~= old(out)@ + spec_num_items_from(name@, ns@, i as int));
        }
    }
}

fn append_comma_items(out: &mut String, ts: &Vec<String>, i: usize)
    requires
        i < ts@.len(),
    ensures
        final(out)@ == old(out)@ + spec_comma_items_from(ts.deep_view(), i as int),
    decreases ts@.len() - i,
{
    append_escaped_text(out, ts[i].as_str());
    if i < ts.len() - 1 {
        out.append(",");
        append_comma_items(out, ts, i + 1);
        proof {
            assert(final(out)@ =~= old(out)@ + spec_comma_items_from(ts.deep_view(), i as int));
        }
    } else {
        proof {
            assert(final(out)@ =~= old(out)@ + spec_comma_items_from(ts.deep_view(), i as int));
        }
    }
}

/// Appends one named filter's contribution to the string.
fn append_filter(out: &mut String, name: &str, v: &FilterValue)
    ensures
        final(out)@ == old(out)@ + spec_contribution(name@, v@),
{
    match v {
        FilterValue::Flag(b) => {
            out.append(name);
            out.append("=");
            if *b {
                out.append("true");
            } else {
                out.append("false");
            }
            proof {
                assert(final(out)@ =~= old(out)@ + spec_contribution(name@, v@));
            }
        },
        FilterValue::Num(n) => {
            out.append(name);
            out.append("=");
            append_i64_dec(out, *n);
            proof {
                assert(final(out)@ =~= old(out)@ + spec_contribution(name@, v@));
            }
        },
        FilterValue::Text(t) => {
            out.append(name);
            out.append("=");
            append_escaped_text(out, t);
            proof {
                assert(final(out)@ =~= old(out)@ + spec_contribution(name@, v@));
            }
        },
        FilterValue::Token(t) => {
            out.append(name);
            out.append("=");
            out.append(t);
            proof {
                assert(final(out)@ =~= old(out)@ + spec_contribution(name@, v@));
            }
        },
        FilterValue::NumList(ns) => {
            if ns.len() == 0 {
                proof {
                    assert(final(out)@ =~= old(out)@ + spec_contribution(name@, v@));
                }
            } else if ns.len() == 1 {
                out.append(name);
                out.append("=");
                append_i64_dec(out, ns[0]);
                proof {
                    assert(final(out)@ =~= old(out)@ + spec_contribution(name@, v@));
                }
            } else {
                append_num_items(out, name, ns, 0);
            }
        },
        FilterValue::CommaList(ts) => {
            if ts.len() == 0 {
                proof {
                    assert(final(out)@ =~= old(out)@ + spec_contribution(name@, v@));
                }
            } else {
                out.append(name);
                out.append("=");
                append_comma_items(out, ts, 0);
                proof {
                    assert(final(out)@ =~= old(out)@ + spec_contribution(name@, v@));
                }
            }
        },
    }
}

fn filters_from(pairs: &Vec<(&str, FilterValue)>, i: usize) -> (r: String)
    ensures
        r@ == spec_filters_from(spec_pairs_of(pairs@), i as int),
    decreases pairs@.len() - i,
{
    if i >= pairs.len() {
        String::new()
    } else {
        let mut head = String::new();
        append_filter(&mut head, pairs[i].0, &pairs[i].1);
        let rest = filters_from(pairs, i + 1);
        proof {
            assert(spec_pairs_of(pairs@)[i as int].0 == pairs@[i as int].0@);
            assert(spec_pairs_of(pairs@)[i as int].1 == pairs@[i as int].1@);
        }
        if head.as_str().is_empty() {
            rest
        } else if rest.as_str().is_empty() {
            head
        } else {
            head.append("&");
            head.append(rest.as_str());
            proof {
                assert(head@ =~= spec_filters_from(spec_pairs_of(pairs@), i as int));
            }
            head
        }
    }
}

/// Encoding is deterministic: the encoded query is a function of the path
/// and the filter pairs alone, so any two encodings of the same listing are
/// the same string.
pub proof fn lemma_encode_deterministic(
    path: Seq<char>,
    pairs: Seq<(Seq<char>, FilterSpec)>,
    r1: Seq<char>,
    r2: Seq<char>,
)
    requires
        r1 == spec_encode(path, pairs),
        r2 == spec_encode(path, pairs),
    ensures
        r1 == r2,
{
}

/// A listing whose every filter is absent encodes to exactly the bare path:
/// no `?`, no separators.
pub proof fn lemma_encode_no_pairs(path: Seq<char>)
    ensures
        spec_encode(path, Seq::<(Seq<char>, FilterSpec)>::empty()) == path,
{
    assert(spec_filters_from(Seq::<(Seq<char>, FilterSpec)>::empty(), 0) == Seq::<char>::empty());
}

/// The path/query asymmetry for the namespace separator: inside a path
/// segment a `/` is percent-encoded to `%2F`, while a query value keeps
/// `/` verbatim; every other character of a path segment stays as it is.
pub proof fn lemma_slash_escaping(c: char)
    ensures
        spec_escape_char('/') == seq!['/'],
        c == '/' ==> spec_escape_segment(seq![c]) == seq!['%', '2', 'F'],
        c != '/' ==> spec_escape_segment(seq![c]) == seq![c],
{
    assert(seq![c].drop_first() =~= Seq::<char>::empty());
    assert(spec_escape_segment(seq![c].drop_first()) == Seq::<char>::empty());
    if c == '/' {
        assert(spec_escape_segment(seq![c]) =~= seq!['%', '2', 'F']);
    } else {
        assert(spec_escape_segment(seq![c]) =~= seq![c]);
    }
}

/// Encodes a listing's query: the fixed resource path, then every present
/// filter in the order the pair list gives them.
pub fn encode_query(path: &str, pairs: &Vec<(&str, FilterValue)>) -> (r: String)
    ensures
        r@ == spec_encode(path@, spec_pairs_of(pairs@)),
{
    let filters = filters_from(pairs, 0);
    let mut q = String::from_str(path);
    if !filters.as_str().is_empty() {
        q.append("?");
        q.append(filters.as_str());
        proof {
            assert(q@ =~= spec_encode(path@, spec_pairs_of(pairs@)));
        }
    }
    q
}

} // verus!
