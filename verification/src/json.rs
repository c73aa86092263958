//! The JSON text the library emits, given twice: as a mathematical model
//! (spec functions from values to character sequences) and as verified
//! writers that are proved to produce exactly the modelled text.
//!
//! Strings are escaped the way the wire format asks: `"` and `\` get a
//! backslash, the control characters below space become `\b`, `\t`, `\n`,
//! `\f`, `\r` or `\u00` followed by two lowercase hex digits, and every
//! other character stands for itself. Numbers are plain decimal integers.

use vstd::prelude::*;
use vstd::string::StrSliceExecFns;
use vstd::string::StringExecFns;

verus! {

/// One lowercase hexadecimal digit.
pub open spec fn hex_digit(n: nat) -> char {
    if n == 0 { '0' } else if n == 1 { '1' } else if n == 2 { '2' } else if n == 3 { '3' }
    else if n == 4 { '4' } else if n == 5 { '5' } else if n == 6 { '6' } else if n == 7 { '7' }
    else if n == 8 { '8' } else if n == 9 { '9' } else if n == 10 { 'a' } else if n == 11 { 'b' }
    else if n == 12 { 'c' } else if n == 13 { 'd' } else if n == 14 { 'e' } else { 'f' }
}

/// One decimal digit.
pub open spec fn dec_digit(n: nat) -> char {
    if n == 0 { '0' } else if n == 1 { '1' } else if n == 2 { '2' } else if n == 3 { '3' }
    else if n == 4 { '4' } else if n == 5 { '5' } else if n == 6 { '6' } else if n == 7 { '7' }
    else if n == 8 { '8' } else { '9' }
}

/// What one character contributes to a JSON string literal.
pub open spec fn esc_char(c: char) -> Seq<char> {
    if c == '"' { "\\\""@ }
    else if c == '\\' { "\\\\"@ }
    else if c == '\u{8}' { "\\b"@ }
    else if c == '\t' { "\\t"@ }
    else if c == '\n' { "\\n"@ }
    else if c == '\u{c}' { "\\f"@ }
    else if c == '\r' { "\\r"@ }
    else if (c as u32) < 0x20 {
        "\\u00"@ + seq![hex_digit(((c as u32) / 16) as nat), hex_digit(((c as u32) % 16) as nat)]
    } else { seq![c] }
}

/// The body of a JSON string literal: every character escaped in turn.
pub open spec fn esc_str(s: Seq<char>) -> Seq<char>
    decreases s.len(),
{
    if s.len() == 0 { Seq::empty() } else { esc_char(s[0]) + esc_str(s.drop_first()) }
}

/// A JSON string literal: the escaped body between double quotes.
pub open spec fn jstr(s: Seq<char>) -> Seq<char> {
    seq!['"'] + esc_str(s) + seq!['"']
}

/// A JSON boolean.
pub open spec fn jbool(b: bool) -> Seq<char> {
    if b { "true"@ } else { "false"@ }
}

/// The decimal digits of a natural number, most significant first.
pub open spec fn dec_nat(n: nat) -> Seq<char>
    decreases n,
{
    if n < 10 { seq![dec_digit(n)] } else { dec_nat(n / 10) + seq![dec_digit(n % 10)] }
}

/// A JSON integer: decimal digits, with a minus sign where negative.
pub open spec fn jint(n: int) -> Seq<char> {
    if n < 0 { seq!['-'] + dec_nat((-n) as nat) } else { dec_nat(n as nat) }
}

/// Fragments joined by commas: the members of an object or array.
pub open spec fn joined(fs: Seq<Seq<char>>) -> Seq<char>
    decreases fs.len(),
{
    if fs.len() == 0 { Seq::empty() }
    else if fs.len() == 1 { fs[0] }
    else { joined(fs.drop_last()) + seq![','] + fs.last() }
}

/// A JSON object over its already-rendered `"key":value` fragments.
pub open spec fn jobj(fs: Seq<Seq<char>>) -> Seq<char> {
    seq!['{'] + joined(fs) + seq!['}']
}

/// A JSON array over its already-rendered element fragments.
pub open spec fn jarr(es: Seq<Seq<char>>) -> Seq<char> {
    seq!['['] + joined(es) + seq![']']
}

/// Appending one more fragment extends the joined text by a comma (unless
/// the fragment is the first) and the fragment itself.
pub proof fn lemma_joined_push(fs: Seq<Seq<char>>, f: Seq<char>)
    ensures
        joined(fs.push(f)) == if fs.len() == 0 { f } else { joined(fs) + seq![','] + f },
{
    assert(fs.push(f).drop_last() =~= fs);
    assert(fs.push(f).last() == f);
}

/// The joined text opens with the first fragment.
pub proof fn lemma_joined_first(fs: Seq<Seq<char>>)
    requires
        fs.len() > 0,
    ensures
        joined(fs).len() >= fs[0].len(),
        joined(fs).take(fs[0].len() as int) == fs[0],
    decreases fs.len(),
{
    if fs.len() == 1 {
        assert(joined(fs).take(fs[0].len() as int) =~= fs[0]);
    } else {
        let a = fs.drop_last();
        lemma_joined_first(a);
        assert(a[0] == fs[0]);
        assert(joined(fs).take(fs[0].len() as int) =~= joined(a).take(fs[0].len() as int));
    }
}

/// Opening an object adds no fragment yet.
pub proof fn lemma_obj_open(base: Seq<char>)
    ensures
        base + seq!['{'] == base + seq!['{'] + joined(Seq::<Seq<char>>::empty()),
{
    assert(base + seq!['{'] =~= base + seq!['{'] + joined(Seq::<Seq<char>>::empty()));
}

/// Writing the first `"key":value` pair extends the text by exactly that
/// fragment.
pub proof fn lemma_obj_field_first(base: Seq<char>, fs: Seq<Seq<char>>, key: Seq<char>, val: Seq<char>)
    requires
        fs.len() == 0,
    ensures
        base + seq!['{'] + joined(fs) + key + val == base + seq!['{'] + joined(fs.push(key + val)),
{
    lemma_joined_push(fs, key + val);
    assert(base + seq!['{'] + joined(fs) + key + val =~= base + seq!['{'] + joined(
        fs.push(key + val),
    ));
}

/// Writing a later `"key":value` pair extends the text by a comma and the
/// fragment.
pub proof fn lemma_obj_field_next(base: Seq<char>, fs: Seq<Seq<char>>, key: Seq<char>, val: Seq<char>)
    requires
        fs.len() > 0,
    ensures
        base + seq!['{'] + joined(fs) + seq![','] + key + val == base + seq!['{'] + joined(
            fs.push(key + val),
        ),
{
    lemma_joined_push(fs, key + val);
    assert(base + seq!['{'] + joined(fs) + seq![','] + key + val =~= base + seq!['{'] + joined(
        fs.push(key + val),
    ));
}

/// Closing the braces completes the rendered object.
pub proof fn lemma_obj_close(base: Seq<char>, fs: Seq<Seq<char>>)
    ensures
        base + seq!['{'] + joined(fs) + seq!['}'] == base + jobj(fs),
{
    assert(base + seq!['{'] + joined(fs) + seq!['}'] =~= base + jobj(fs));
}

/// Opening an array adds no element yet.
pub proof fn lemma_arr_open(base: Seq<char>)
    ensures
        base + seq!['['] == base + seq!['['] + joined(Seq::<Seq<char>>::empty()),
{
    assert(base + seq!['['] =~= base + seq!['['] + joined(Seq::<Seq<char>>::empty()));
}

/// Writing the first element extends the text by exactly that element.
pub proof fn lemma_arr_elem_first(base: Seq<char>, es: Seq<Seq<char>>, val: Seq<char>)
    requires
        es.len() == 0,
    ensures
        base + seq!['['] + joined(es) + val == base + seq!['['] + joined(es.push(val)),
{
    lemma_joined_push(es, val);
    assert(base + seq!['['] + joined(es) + val =~= base + seq!['['] + joined(es.push(val)));
}

/// Writing a later element extends the text by a comma and the element.
pub proof fn lemma_arr_elem_next(base: Seq<char>, es: Seq<Seq<char>>, val: Seq<char>)
    requires
        es.len() > 0,
    ensures
        base + seq!['['] + joined(es) + seq![','] + val == base + seq!['['] + joined(es.push(val)),
{
    lemma_joined_push(es, val);
    assert(base + seq!['['] + joined(es) + seq![','] + val =~= base + seq!['['] + joined(
        es.push(val),
    ));
}

/// Closing the brackets completes the rendered array.
pub proof fn lemma_arr_close(base: Seq<char>, es: Seq<Seq<char>>)
    ensures
        base + seq!['['] + joined(es) + seq![']'] == base + jarr(es),
{
    assert(base + seq!['['] + joined(es) + seq![']'] =~= base + jarr(es));
}

/// An object whose first fragment is an enable flag set to true opens with
/// exactly that text, whatever follows.
pub proof fn lemma_enable_opens(fs: Seq<Seq<char>>)
    requires
        fs.len() > 0,
        fs[0] == "\"enable\":"@ + jbool(true),
    ensures
        jobj(fs).len() >= 14,
        jobj(fs).take(14) == "{\"enable\":true"@,
{
    reveal_strlit("\"enable\":");
    reveal_strlit("true");
    reveal_strlit("{\"enable\":true");
    lemma_joined_first(fs);
    assert(jobj(fs).take(14) =~= "{\"enable\":true"@) by {
        assert forall|i: int| 1 <= i < 14 implies jobj(fs)[i] == fs[0][i - 1] by {
            assert(joined(fs).take(fs[0].len() as int)[i - 1] == fs[0][i - 1]);
        }
    }
}

/// The views of a sequence of strings.
pub open spec fn strs(s: Seq<String>) -> Seq<Seq<char>> {
    s.map_values(|x: String| x@)
}

/// Each string rendered as a JSON string literal.
pub open spec fn jstr_elems(s: Seq<Seq<char>>) -> Seq<Seq<char>> {
    s.map_values(|t: Seq<char>| jstr(t))
}

/// Each integer rendered as a JSON number.
pub open spec fn jint_elems(s: Seq<i32>) -> Seq<Seq<char>> {
    s.map_values(|n: i32| jint(n as int))
}

/// Relies on `String::push` from std: it appends the one character at the
/// end of the string.
#[verifier::external_body]
pub(crate) fn push_char(out: &mut String, c: char)
    ensures
        final(out)@ == old(out)@ + seq![c],
{
    out.push(c);
}

/// Appends a literal without change.
pub(crate) fn write_lit(out: &mut String, s: &str)
    ensures
        final(out)@ == old(out)@ + s@,
{
    out.append(s);
}

/// Turns a value below sixteen into its hex digit.
fn hex_char(d: u8) -> (c: char)
    requires
        d < 16,
    ensures
        c == hex_digit(d as nat),
{
    match d {
        0 => '0', 1 => '1', 2 => '2', 3 => '3', 4 => '4', 5 => '5', 6 => '6', 7 => '7',
        8 => '8', 9 => '9', 10 => 'a', 11 => 'b', 12 => 'c', 13 => 'd', 14 => 'e', _ => 'f',
    }
}

/// Turns a value below ten into its decimal digit.
fn dec_char(d: u8) -> (c: char)
    requires
        d < 10,
    ensures
        c == dec_digit(d as nat),
{
    match d {
        0 => '0', 1 => '1', 2 => '2', 3 => '3', 4 => '4', 5 => '5', 6 => '6', 7 => '7',
        8 => '8', _ => '9',
    }
}

/// Appends the escape sequence of one character.
fn write_escaped_char(out: &mut String, c: char)
    ensures
        final(out)@ == old(out)@ + esc_char(c),
{
    if c == '"' {
        out.append("\\\"");
    } else if c == '\\' {
        out.append("\\\\");
    } else if c == '\u{8}' {
        out.append("\\b");
    } else if c == '\t' {
        out.append("\\t");
    } else if c == '\n' {
        out.append("\\n");
    } else if c == '\u{c}' {
        out.append("\\f");
    } else if c == '\r' {
        out.append("\\r");
    } else if (c as u32) < 0x20 {
        let v = c as u32;
        out.append("\\u00");
        push_char(out, hex_char((v / 16) as u8));
        push_char(out, hex_char((v % 16) as u8));
        assert(out@ =~= old(out)@ + esc_char(c));
    } else {
        push_char(out, c);
    }
}

/// Appends the escaped body of a string.
fn write_escaped(out: &mut String, s: &str)
    ensures
        final(out)@ == old(out)@ + esc_str(s@),
{
    let len = s.unicode_len();
    let mut i: usize = 0;
    assert(s@.skip(0) =~= s@);
    while i < len
        invariant
            len == s@.len(),
            i <= len,
            out@ + esc_str(s@.skip(i as int)) == old(out)@ + esc_str(s@),
        decreases len - i,
    {
        let c = s.get_char(i);
        proof {
            assert(s@.skip(i as int).drop_first() =~= s@.skip(i as int + 1));
            assert(out@ + (esc_char(c) + esc_str(s@.skip(i as int + 1))) =~= (out@ + esc_char(c))
                + esc_str(s@.skip(i as int + 1)));
        }
        write_escaped_char(out, c);
        i = i + 1;
    }
    proof {
        assert(s@.skip(len as int) =~= Seq::empty());
        assert(out@ + esc_str(Seq::empty()) =~= out@);
    }
}

/// Appends a JSON string literal.
pub(crate) fn write_jstr(out: &mut String, s: &str)
    ensures
        final(out)@ == old(out)@ + jstr(s@),
{
    push_char(out, '"');
    write_escaped(out, s);
    push_char(out, '"');
    assert(out@ =~= old(out)@ + jstr(s@));
}

/// Appends a JSON boolean.
pub(crate) fn write_jbool(out: &mut String, b: bool)
    ensures
        final(out)@ == old(out)@ + jbool(b),
{
    if b {
        out.append("true");
    } else {
        out.append("false");
    }
}

/// Appends the decimal digits of a natural number.
fn write_dec(out: &mut String, n: u32)
    ensures
        final(out)@ == old(out)@ + dec_nat(n as nat),
    decreases n,
{
    if n < 10 {
        push_char(out, dec_char(n as u8));
    } else {
        write_dec(out, n / 10);
        push_char(out, dec_char((n % 10) as u8));
        assert(out@ =~= old(out)@ + dec_nat(n as nat));
    }
}

/// Appends a JSON integer.
pub(crate) fn write_jint(out: &mut String, n: i32)
    ensures
        final(out)@ == old(out)@ + jint(n as int),
{
    if n < 0 {
        push_char(out, '-');
        let m = (-(n as i64)) as u32;
        write_dec(out, m);
        assert(out@ =~= old(out)@ + jint(n as int));
    } else {
        write_dec(out, n as u32);
    }
}

/// Appends a JSON array of string literals.
pub(crate) fn write_jstr_array(out: &mut String, v: &Vec<String>)
    ensures
        final(out)@ == old(out)@ + jarr(jstr_elems(strs(v@))),
{
    let ghost base = out@;
    let ghost es = jstr_elems(strs(v@));
    push_char(out, '[');
    proof {
        lemma_arr_open(base);
        assert(es.take(0) =~= Seq::<Seq<char>>::empty());
    }
    let n = v.len();
    let mut i: usize = 0;
    while i < n
        invariant
            n == v@.len(),
            i <= n,
            es == jstr_elems(strs(v@)),
            es.len() == n,
            out@ == base + seq!['['] + joined(es.take(i as int)),
        decreases n - i,
    {
        if i > 0 {
            push_char(out, ',');
        }
        write_jstr(out, v[i].as_str());
        proof {
            assert(es[i as int] == jstr(v@[i as int]@));
            if i == 0 {
                lemma_arr_elem_first(base, es.take(0), es[0]);
            } else {
                lemma_arr_elem_next(base, es.take(i as int), es[i as int]);
            }
            assert(es.take(i as int).push(es[i as int]) =~= es.take(i as int + 1));
        }
        i = i + 1;
    }
    push_char(out, ']');
    proof {
        assert(es.take(n as int) =~= es);
        lemma_arr_close(base, es);
    }
}

/// Appends a JSON array of numbers.
pub(crate) fn write_jint_array(out: &mut String, v: &Vec<i32>)
    ensures
        final(out)@ == old(out)@ + jarr(jint_elems(v@)),
{
    let ghost base = out@;
    let ghost es = jint_elems(v@);
    push_char(out, '[');
    proof {
        lemma_arr_open(base);
        assert(es.take(0) =~= Seq::<Seq<char>>::empty());
    }
    let n = v.len();
    let mut i: usize = 0;
    while i < n
        invariant
            n == v@.len(),
            i <= n,
            es == jint_elems(v@),
            es.len() == n,
            out@ == base + seq!['['] + joined(es.take(i as int)),
        decreases n - i,
    {
        if i > 0 {
            push_char(out, ',');
        }
        write_jint(out, v[i]);
        proof {
            assert(es[i as int] == jint(v@[i as int] as int));
            if i == 0 {
                lemma_arr_elem_first(base, es.take(0), es[0]);
            } else {
                lemma_arr_elem_next(base, es.take(i as int), es[i as int]);
            }
            assert(es.take(i as int).push(es[i as int]) =~= es.take(i as int + 1));
        }
        i = i + 1;
    }
    push_char(out, ']');
    proof {
        assert(es.take(n as int) =~= es);
        lemma_arr_close(base, es);
    }
}

/// Appends the comma that separates a fragment from the one before it, and
/// records that the object or array is no longer empty.
pub(crate) fn write_sep(out: &mut String, first: &mut bool)
    ensures
        final(out)@ == if *old(first) { old(out)@ } else { old(out)@ + seq![','] },
        *final(first) == false,
{
    if *first {
        *first = false;
    } else {
        push_char(out, ',');
    }
}

} // verus!
