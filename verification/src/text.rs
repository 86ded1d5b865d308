//! Small pieces of text that the messages and escape sequences are made of.

use vstd::prelude::*;

verus! {

/// `String::push` of the standard library: appends one character.
pub assume_specification[ String::push ](text: &mut String, c: char)
    ensures
        final(text)@ == old(text)@.push(c),
;

/// The character of a decimal digit.
pub open spec fn digit(value: int) -> char {
    (48 + value) as char
}

/// The decimal numeral of `n`: no sign, no padding, `"0"` for zero.
pub open spec fn decimal(n: nat) -> Seq<char>
    decreases n,
{
    if n < 10 {
        seq![digit(n as int)]
    } else {
        decimal(n / 10).push(digit((n % 10) as int))
    }
}

/// The decimal numeral of `n` as text.
pub fn decimal_text(n: u64) -> (text: String)
    ensures
        text@ == decimal(n as nat),
    decreases n,
{
    if n < 10 {
        let mut text = String::new();
        text.push((48 + n as u8) as char);
        assert(text@ =~= decimal(n as nat));
        text
    } else {
        let mut text = decimal_text(n / 10);
        text.push((48 + (n % 10) as u8) as char);
        text
    }
}

/// Each name between backticks, the names separated by a comma and a space.
pub open spec fn quoted_list(names: Seq<Seq<char>>) -> Seq<char>
    decreases names.len(),
{
    if names.len() == 0 {
        Seq::empty()
    } else if names.len() == 1 {
        seq!['`'] + names[0] + seq!['`']
    } else {
        quoted_list(names.drop_last()) + seq![',', ' ', '`'] + names.last() + seq!['`']
    }
}

/// The views of a list of strings, in order.
pub open spec fn texts(items: Seq<String>) -> Seq<Seq<char>> {
    items.map_values(|item: String| item@)
}

/// Renders `names` as `quoted_list` describes.
pub fn quoted_list_text(names: &Vec<String>) -> (text: String)
    ensures
        text@ == quoted_list(texts(names@)),
{
    let mut text = String::new();
    let mut i: usize = 0;
    while i < names.len()
        invariant
            i <= names.len(),
            text@ == quoted_list(texts(names@).take(i as int)),
        decreases names.len() - i,
    {
        if i > 0 {
            text.push(',');
            text.push(' ');
        }
        text.push('`');
        text.append(names[i].as_str());
        text.push('`');
        proof {
            let all = texts(names@);
            let before = all.take(i as int);
            let now = all.take(i + 1);
            assert(now.drop_last() =~= before);
            assert(now.last() == names@[i as int]@);
            if i == 0 {
                assert(text@ =~= seq!['`'] + now[0] + seq!['`']);
            } else {
                assert(text@ =~= quoted_list(before) + seq![',', ' ', '`'] + now.last() + seq!['`']);
            }
        }
        i += 1;
    }
    assert(texts(names@).take(names.len() as int) =~= texts(names@));
    text
}

} // verus!
