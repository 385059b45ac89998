//! The JSON text of the messages that a shard sends: an op code and its data,
//! framed as `{"d":<data>,"op":<op code>}`, the keys in the sorted order in
//! which `serde_json` writes an object.

use vstd::prelude::*;
use crate::structures::gateway::OpCode;

verus! {

/// The character of a decimal digit.
pub open spec fn digit_char(d: nat) -> char
    recommends
        d < 10,
{
    if d == 0 {
        '0'
    } else if d == 1 {
        '1'
    } else if d == 2 {
        '2'
    } else if d == 3 {
        '3'
    } else if d == 4 {
        '4'
    } else if d == 5 {
        '5'
    } else if d == 6 {
        '6'
    } else if d == 7 {
        '7'
    } else if d == 8 {
        '8'
    } else {
        '9'
    }
}

/// The value of a decimal digit character.
pub open spec fn digit_value(c: char) -> nat {
    if c == '1' {
        1
    } else if c == '2' {
        2
    } else if c == '3' {
        3
    } else if c == '4' {
        4
    } else if c == '5' {
        5
    } else if c == '6' {
        6
    } else if c == '7' {
        7
    } else if c == '8' {
        8
    } else if c == '9' {
        9
    } else {
        0
    }
}

/// Whether a character is a decimal digit.
pub open spec fn is_digit(c: char) -> bool {
    c == '0' || c == '1' || c == '2' || c == '3' || c == '4' || c == '5' || c == '6' || c == '7'
        || c == '8' || c == '9'
}

/// The number that a string of decimal digits denotes.
pub open spec fn decimal_value(s: Seq<char>) -> nat
    decreases s.len(),
{
    if s.len() == 0 {
        0
    } else {
        decimal_value(s.drop_last()) * 10 + digit_value(s.last())
    }
}

/// The decimal notation of a natural number, without leading zeros.
pub open spec fn decimal(n: nat) -> Seq<char>
    decreases n,
{
    if n < 10 {
        seq![digit_char(n)]
    } else {
        decimal(n / 10).push(digit_char(n % 10))
    }
}

/// The text of a message that carries `data` under the op code `op`.
pub open spec fn framed(op: OpCode, data: Seq<char>) -> Seq<char> {
    "{\"d\":"@ + data + ",\"op\":"@ + decimal(op as nat) + "}"@
}

/// The decimal notation of a number is made of digits only, one at least,
/// and two at least from ten on.
pub proof fn lemma_decimal_digits(n: nat)
    ensures
        decimal(n).len() >= 1,
        n >= 10 ==> decimal(n).len() >= 2,
        forall|i: int| 0 <= i < decimal(n).len() ==> is_digit(#[trigger] decimal(n)[i]),
    decreases n,
{
    if n >= 10 {
        lemma_decimal_digits(n / 10);
        let prefix = decimal(n / 10);
        assert forall|i: int| 0 <= i < decimal(n).len() implies is_digit(#[trigger] decimal(n)[i]) by {
            if i < prefix.len() {
                assert(decimal(n)[i] == prefix[i]);
            }
        }
    }
}

/// The decimal notation of a number denotes that number.
pub proof fn lemma_decimal_value(n: nat)
    ensures
        decimal_value(decimal(n)) == n,
    decreases n,
{
    let last = n % 10;
    assert(digit_value(digit_char(last)) == last);
    if n >= 10 {
        lemma_decimal_value(n / 10);
        assert(decimal(n).drop_last() =~= decimal(n / 10));
        assert(decimal(n).last() == digit_char(last));
        assert(n == (n / 10) * 10 + last);
    } else {
        assert(decimal(n).drop_last() =~= Seq::<char>::empty());
        assert(decimal_value(Seq::<char>::empty()) == 0);
    }
}

/// Two numbers with the same decimal notation are equal.
pub proof fn lemma_decimal_injective(a: nat, b: nat)
    requires
        decimal(a) == decimal(b),
    ensures
        a == b,
{
    lemma_decimal_value(a);
    lemma_decimal_value(b);
}

/// A framed message is `{"d":`, then the data whole, then `,"op":`, then
/// the op code in decimal, then `}`.
pub proof fn lemma_frame_layout(op: OpCode, data: Seq<char>)
    ensures
        framed(op, data).take(5) == seq!['{', '"', 'd', '"', ':'],
        framed(op, data).subrange(5, 5 + data.len() as int) == data,
        framed(op, data).subrange(5 + data.len() as int, 11 + data.len() as int) == seq![',', '"', 'o', 'p', '"', ':'],
        framed(op, data).subrange(11 + data.len() as int, framed(op, data).len() - 1) == decimal(op as nat),
        framed(op, data).last() == '}',
{
    reveal_strlit("{\"d\":");
    reveal_strlit(",\"op\":");
    reveal_strlit("}");
    let f = framed(op, data);
    assert(f.take(5) =~= seq!['{', '"', 'd', '"', ':']);
    assert(f.subrange(5, 5 + data.len() as int) =~= data);
    assert(f.subrange(5 + data.len() as int, 11 + data.len() as int) =~= seq![',', '"', 'o', 'p', '"', ':']);
    assert(f.subrange(11 + data.len() as int, f.len() - 1) =~= decimal(op as nat));
}

/// A framed message tells its op code and its data apart: two messages with
/// the same text carry the same op code and the same data.
pub proof fn lemma_frame_unambiguous(op1: OpCode, data1: Seq<char>, op2: OpCode, data2: Seq<char>)
    requires
        framed(op1, data1) == framed(op2, data2),
    ensures
        op1 == op2,
        data1 == data2,
{
    reveal_strlit("{\"d\":");
    reveal_strlit(",\"op\":");
    reveal_strlit("}");
    let open = "{\"d\":"@;
    let sep = ",\"op\":"@;
    let close = "}"@;
    let d1 = decimal(op1 as nat);
    let d2 = decimal(op2 as nat);
    lemma_decimal_digits(op1 as nat);
    lemma_decimal_digits(op2 as nat);
    let x1 = data1 + sep + d1;
    let x2 = data2 + sep + d2;
    let f1 = framed(op1, data1);
    let f2 = framed(op2, data2);
    assert(f1 =~= open + x1 + close);
    assert(f2 =~= open + x2 + close);
    assert(x1 =~= f1.subrange(5, f1.len() - 1));
    assert(x2 =~= f2.subrange(5, f2.len() - 1));
    assert(x1 == x2);
    let len = x1.len() as int;
    if d1.len() < d2.len() {
        let k = len - d1.len() - 1;
        assert(x1[k] == ':');
        assert(x2[k] == d2[k - (data2.len() + 6)]);
        assert(false);
    } else if d2.len() < d1.len() {
        let k = len - d2.len() - 1;
        assert(x2[k] == ':');
        assert(x1[k] == d1[k - (data1.len() + 6)]);
        assert(false);
    }
    assert(d1 =~= x1.subrange(len - d1.len(), len));
    assert(d2 =~= x2.subrange(len - d2.len(), len));
    lemma_decimal_injective(op1 as nat, op2 as nat);
    assert(data1 =~= x1.subrange(0, data1.len() as int));
    assert(data2 =~= x2.subrange(0, data2.len() as int));
}

/// The text of a decimal digit.
fn digit_text(d: u128) -> (s: &'static str)
    requires
        d < 10,
    ensures
        s@ == seq![digit_char(d as nat)],
{
    proof {
        reveal_strlit("0");
        reveal_strlit("1");
        reveal_strlit("2");
        reveal_strlit("3");
        reveal_strlit("4");
        reveal_strlit("5");
        reveal_strlit("6");
        reveal_strlit("7");
        reveal_strlit("8");
        reveal_strlit("9");
    }
    if d == 0 {
        "0"
    } else if d == 1 {
        "1"
    } else if d == 2 {
        "2"
    } else if d == 3 {
        "3"
    } else if d == 4 {
        "4"
    } else if d == 5 {
        "5"
    } else if d == 6 {
        "6"
    } else if d == 7 {
        "7"
    } else if d == 8 {
        "8"
    } else {
        "9"
    }
}

/// Writes a number in decimal, as `serde_json` writes an integer.
pub fn decimal_text(n: u128) -> (s: String)
    ensures
        s@ == decimal(n as nat),
        decimal_value(s@) == n,
    decreases n,
{
    proof {
        lemma_decimal_value(n as nat);
    }
    if n < 10 {
        String::from_str(digit_text(n))
    } else {
        let mut s = decimal_text(n / 10);
        s.append(digit_text(n % 10));
        s
    }
}

/// Frames the JSON text `data` as the data of a message with op code `op`.
pub fn frame(op: OpCode, data: &str) -> (s: String)
    ensures
        s@ == framed(op, data@),
{
    let mut s = String::from_str("{\"d\":");
    s.append(data);
    s.append(",\"op\":");
    let code = decimal_text(op as u128);
    s.append(code.as_str());
    s.append("}");
    s
}

} // verus!
