//! The wire format: an exact specification of the JSON text produced for a
//! parse outcome, and a verified emitter for it. Optional fields are omitted
//! entirely when absent, never written as null.
use vstd::prelude::*;

use crate::engine::push_char;
use crate::node::{AstNode, ParseResult};
use vstd::string::StrSliceExecFns;
use vstd::string::StringExecFns;

verus! {

/// The character for one decimal digit.
pub open spec fn digit_char(d: nat) -> char {
    if d == 0 {
        '0'
    } else if d == 1 {
        '1'
    } else if d == 2 {
        '2'
    } else if d == 3 {
        '3'
    } else if d == 4 {
        '4'
    } else if d == 5 {
        '5'
    } else if d == 6 {
        '6'
    } else if d == 7 {
        '7'
    } else if d == 8 {
        '8'
    } else {
        '9'
    }
}

/// The character for one lowercase hexadecimal digit.
pub open spec fn hex_char(d: nat) -> char {
    if d < 10 {
        digit_char(d)
    } else if d == 10 {
        'a'
    } else if d == 11 {
        'b'
    } else if d == 12 {
        'c'
    } else if d == 13 {
        'd'
    } else if d == 14 {
        'e'
    } else {
        'f'
    }
}

/// The decimal digits of a number, most significant first.
pub open spec fn dec_of(n: nat) -> Seq<char>
    decreases n,
{
    if n < 10 {
        seq![digit_char(n)]
    } else {
        dec_of(n / 10) + seq![digit_char(n % 10)]
    }
}

/// The JSON escape of one character: quote and backslash get a
/// two-character escape, the five named control characters theirs, any
/// other control character the `\u00..` form with lowercase hex digits,
/// and every other character stands as itself.
pub open spec fn esc_char(c: char) -> Seq<char> {
    if c == '"' {
        seq!['\\', '"']
    } else if c == '\\' {
        seq!['\\', '\\']
    } else if c == '\u{8}' {
        seq!['\\', 'b']
    } else if c == '\t' {
        seq!['\\', 't']
    } else if c == '\n' {
        seq!['\\', 'n']
    } else if c == '\u{c}' {
        seq!['\\', 'f']
    } else if c == '\r' {
        seq!['\\', 'r']
    } else if (c as u32) < 32 {
        seq!['\\', 'u', '0', '0', hex_char((c as u32) as nat / 16), hex_char((c as u32) as nat % 16)]
    } else {
        seq![c]
    }
}

/// The JSON escape of a whole character sequence.
pub open spec fn esc(s: Seq<char>) -> Seq<char>
    decreases s.len(),
{
    if s.len() == 0 {
        Seq::empty()
    } else {
        esc_char(s[0]) + esc(s.drop_first())
    }
}

/// A JSON string: the escaped characters between double quotes.
pub open spec fn ser_string(s: Seq<char>) -> Seq<char> {
    seq!['"'] + esc(s) + seq!['"']
}

/// A JSON boolean.
pub open spec fn ser_bool(b: bool) -> Seq<char> {
    if b {
        "true"@
    } else {
        "false"@
    }
}

/// A (row, column) pair as a two-element JSON array.
pub open spec fn ser_pair(p: (usize, usize)) -> Seq<char> {
    seq!['['] + dec_of(p.0 as nat) + seq![','] + dec_of(p.1 as nat) + seq![']']
}

/// One syntax-tree node as a JSON object: fields in declaration order,
/// `text` omitted when absent.
pub open spec fn ser_node(n: AstNode) -> Seq<char>
    decreases n,
{
    "{\"kind\":"@ + ser_string(n.kind@) + ",\"start\":"@ + dec_of(n.start as nat) + ",\"end\":"@
        + dec_of(n.end as nat) + ",\"start_position\":"@ + ser_pair(n.start_position)
        + ",\"end_position\":"@ + ser_pair(n.end_position) + (match n.text {
        Some(t) => ",\"text\":"@ + ser_string(t@),
        None => Seq::<char>::empty(),
    }) + ",\"is_named\":"@ + ser_bool(n.is_named) + ",\"children\":["@ + ser_children(n.children@)
        + "]}"@
}

/// A comma-separated run of serialized nodes.
pub open spec fn ser_children(cs: Seq<AstNode>) -> Seq<char>
    decreases cs,
{
    if cs.len() == 0 {
        Seq::empty()
    } else if cs.len() == 1 {
        ser_node(cs[0])
    } else {
        ser_node(cs[0]) + seq![','] + ser_children(cs.drop_first())
    }
}

/// The whole envelope as a JSON object: `ast` omitted unless present,
/// `error` omitted unless present.
pub open spec fn ser_result(r: ParseResult) -> Seq<char> {
    "{\"success\":"@ + ser_bool(r.success) + (match r.ast {
        Some(n) => ",\"ast\":"@ + ser_node(n),
        None => Seq::<char>::empty(),
    }) + (match r.error {
        Some(e) => ",\"error\":"@ + ser_string(e@),
        None => Seq::<char>::empty(),
    }) + ",\"language\":"@ + ser_string(r.language@) + seq!['}']
}

/// The envelope of a failed request, written out field by field.
pub open spec fn ser_failure(err: Seq<char>, lang: Seq<char>) -> Seq<char> {
    "{\"success\":"@ + "false"@ + ",\"error\":"@ + ser_string(err) + ",\"language\":"@ + ser_string(
        lang,
    ) + seq!['}']
}

/// Escaping distributes over appending one character at the end.
proof fn lemma_esc_snoc(s: Seq<char>, c: char)
    ensures
        esc(s.push(c)) == esc(s) + esc_char(c),
    decreases s.len(),
{
    if s.len() == 0 {
        assert(s.push(c)[0] == c);
        assert(s.push(c).drop_first() =~= Seq::<char>::empty());
        assert(esc(s.push(c)) == esc_char(c) + esc(Seq::<char>::empty()));
        assert(esc(Seq::<char>::empty()) == Seq::<char>::empty());
        assert(esc(s) == Seq::<char>::empty());
        assert(esc(s.push(c)) =~= esc(s) + esc_char(c));
    } else {
        assert(s.push(c).drop_first() =~= s.drop_first().push(c));
        lemma_esc_snoc(s.drop_first(), c);
        assert(esc(s.push(c)) =~= esc(s) + esc_char(c));
    }
}

/// Serializing one more child appends a comma (after at least one sibling)
/// and the new node's text.
proof fn lemma_ser_children_snoc(cs: Seq<AstNode>, n: AstNode)
    ensures
        cs.len() == 0 ==> ser_children(cs.push(n)) == ser_node(n),
        cs.len() > 0 ==> ser_children(cs.push(n)) == ser_children(cs) + seq![','] + ser_node(n),
    decreases cs.len(),
{
    if cs.len() == 0 {
        assert(cs.push(n)[0] == n);
    } else {
        assert(cs.push(n).drop_first() =~= cs.drop_first().push(n));
        lemma_ser_children_snoc(cs.drop_first(), n);
        if cs.len() == 1 {
            assert(ser_children(cs.push(n)) =~= ser_children(cs) + seq![','] + ser_node(n));
        } else {
            assert(ser_children(cs.push(n)) =~= ser_children(cs) + seq![','] + ser_node(n));
        }
    }
}

/// One decimal digit as a character.
fn digit_of(d: usize) -> (c: char)
    requires
        d < 10,
    ensures
        c == digit_char(d as nat),
{
    if d == 0 {
        '0'
    } else if d == 1 {
        '1'
    } else if d == 2 {
        '2'
    } else if d == 3 {
        '3'
    } else if d == 4 {
        '4'
    } else if d == 5 {
        '5'
    } else if d == 6 {
        '6'
    } else if d == 7 {
        '7'
    } else if d == 8 {
        '8'
    } else {
        '9'
    }
}

/// One lowercase hexadecimal digit as a character.
fn hex_of(d: u32) -> (c: char)
    requires
        d < 16,
    ensures
        c == hex_char(d as nat),
{
    if d < 10 {
        digit_of(d as usize)
    } else if d == 10 {
        'a'
    } else if d == 11 {
        'b'
    } else if d == 12 {
        'c'
    } else if d == 13 {
        'd'
    } else if d == 14 {
        'e'
    } else {
        'f'
    }
}

/// Appends the decimal form of a number.
fn emit_dec(n: usize, out: &mut String)
    ensures
        final (out)@ == old(out)@ + dec_of(n as nat),
    decreases n,
{
    if n >= 10 {
        let q = n / 10;
        assert(q < n) by (nonlinear_arith)
            requires
                n >= 10,
                q == n / 10,
        ;
        emit_dec(q, out);
    }
    let c = digit_of(n % 10);
    push_char(out, c);
    proof {
        if n < 10 {
            assert(n % 10 == n);
            assert(old(out)@ + dec_of(n as nat) =~= old(out)@.push(digit_char(n as nat)));
        } else {
            assert(old(out)@ + dec_of(n as nat) =~= (old(out)@ + dec_of((n / 10) as nat)).push(
                digit_char((n % 10) as nat),
            ));
        }
    }
}

/// Appends the escape of one character.
fn emit_esc_char(c: char, out: &mut String)
    ensures
        final (out)@ == old(out)@ + esc_char(c),
{
    if c == '"' {
        push_char(out, '\\');
        push_char(out, '"');
        assert(final (out)@ =~= old(out)@ + esc_char(c));
    } else if c == '\\' {
        push_char(out, '\\');
        push_char(out, '\\');
        assert(final (out)@ =~= old(out)@ + esc_char(c));
    } else if c == '\u{8}' {
        push_char(out, '\\');
        push_char(out, 'b');
        assert(final (out)@ =~= old(out)@ + esc_char(c));
    } else if c == '\t' {
        push_char(out, '\\');
        push_char(out, 't');
        assert(final (out)@ =~= old(out)@ + esc_char(c));
    } else if c == '\n' {
        push_char(out, '\\');
        push_char(out, 'n');
        assert(final (out)@ =~= old(out)@ + esc_char(c));
    } else if c == '\u{c}' {
        push_char(out, '\\');
        push_char(out, 'f');
        assert(final (out)@ =~= old(out)@ + esc_char(c));
    } else if c == '\r' {
        push_char(out, '\\');
        push_char(out, 'r');
        assert(final (out)@ =~= old(out)@ + esc_char(c));
    } else {
        let v = c as u32;
        if v < 32 {
            push_char(out, '\\');
            push_char(out, 'u');
            push_char(out, '0');
            push_char(out, '0');
            let hi = hex_of(v / 16);
            let lo = hex_of(v % 16);
            push_char(out, hi);
            push_char(out, lo);
            assert(final (out)@ =~= old(out)@ + esc_char(c));
        } else {
            push_char(out, c);
            assert(final (out)@ =~= old(out)@ + esc_char(c));
        }
    }
}

/// Appends the escape of a whole slice.
fn emit_escaped(s: &str, out: &mut String)
    ensures
        final (out)@ == old(out)@ + esc(s@),
{
    let len = s.unicode_len();
    let mut i: usize = 0;
    while i < len
        invariant
            i <= len,
            len == s@.len(),
            out@ == old(out)@ + esc(s@.take(i as int)),
        decreases len - i,
    {
        let c = s.get_char(i);
        emit_esc_char(c, out);
        proof {
            lemma_esc_snoc(s@.take(i as int), s@[i as int]);
            assert(s@.take(i as int).push(s@[i as int]) =~= s@.take(i + 1));
            assert(old(out)@ + esc(s@.take(i as int)) + esc_char(s@[i as int]) =~= old(out)@ + esc(
                s@.take(i + 1),
            ));
        }
        i += 1;
    }
    proof {
        assert(s@.take(len as int) =~= s@);
    }
}

/// Appends a JSON string.
pub(crate) fn emit_string(s: &str, out: &mut String)
    ensures
        final (out)@ == old(out)@ + ser_string(s@),
{
    push_char(out, '"');
    emit_escaped(s, out);
    push_char(out, '"');
    assert(final (out)@ =~= old(out)@ + ser_string(s@));
}

/// Appends a JSON boolean.
fn emit_bool(b: bool, out: &mut String)
    ensures
        final (out)@ == old(out)@ + ser_bool(b),
{
    if b {
        out.append("true");
    } else {
        out.append("false");
    }
}

/// Appends a (row, column) pair as a JSON array.
fn emit_pair(p: (usize, usize), out: &mut String)
    ensures
        final (out)@ == old(out)@ + ser_pair(p),
{
    push_char(out, '[');
    emit_dec(p.0, out);
    push_char(out, ',');
    emit_dec(p.1, out);
    push_char(out, ']');
    assert(final (out)@ =~= old(out)@ + ser_pair(p));
}

/// Appends one node as a JSON object, children included.
#[verifier::rlimit(60)]
fn emit_node(n: &AstNode, out: &mut String)
    ensures
        final (out)@ == old(out)@ + ser_node(*n),
    decreases *n,
{
    out.append("{\"kind\":");
    emit_string(n.kind.as_str(), out);
    out.append(",\"start\":");
    emit_dec(n.start, out);
    out.append(",\"end\":");
    emit_dec(n.end, out);
    out.append(",\"start_position\":");
    emit_pair(n.start_position, out);
    out.append(",\"end_position\":");
    emit_pair(n.end_position, out);
    match &n.text {
        Some(t) => {
            out.append(",\"text\":");
            emit_string(t.as_str(), out);
        },
        None => {},
    }
    out.append(",\"is_named\":");
    emit_bool(n.is_named, out);
    out.append(",\"children\":[");
    let ghost pre = out@;
    let k = n.children.len();
    let mut i: usize = 0;
    while i < k
        invariant
            i <= k,
            k == n.children@.len(),
            i == 0 ==> out@ == pre,
            i > 0 ==> out@ == pre + ser_children(n.children@.take(i as int)),
        decreases k - i,
    {
        if i > 0 {
            push_char(out, ',');
        }
        emit_node(&n.children[i], out);
        proof {
            lemma_ser_children_snoc(n.children@.take(i as int), n.children@[i as int]);
            assert(n.children@.take(i as int).push(n.children@[i as int]) =~= n.children@.take(
                i + 1,
            ));
            if i == 0 {
                assert(out@ =~= pre + ser_children(n.children@.take(i + 1)));
            } else {
                assert(out@ =~= pre + ser_children(n.children@.take(i + 1)));
            }
        }
        i += 1;
    }
    out.append("]}");
    proof {
        assert(n.children@.take(k as int) =~= n.children@);
        if k == 0 {
            assert(ser_children(n.children@) =~= Seq::<char>::empty());
            assert(final (out)@ =~= old(out)@ + ser_node(*n));
        } else {
            assert(final (out)@ =~= old(out)@ + ser_node(*n));
        }
    }
}

/// Serializes a whole envelope to its JSON text.
pub fn to_json(r: &ParseResult) -> (out: String)
    ensures
        out@ == ser_result(*r),
{
    let mut out = String::new();
    out.append("{\"success\":");
    emit_bool(r.success, &mut out);
    match &r.ast {
        Some(n) => {
            out.append(",\"ast\":");
            emit_node(n, &mut out);
        },
        None => {},
    }
    match &r.error {
        Some(e) => {
            out.append(",\"error\":");
            emit_string(e.as_str(), &mut out);
        },
        None => {},
    }
    out.append(",\"language\":");
    emit_string(r.language.as_str(), &mut out);
    push_char(&mut out, '}');
    assert(out@ =~= ser_result(*r));
    out
}

} // verus!

