use vstd::prelude::*;

verus! {

/// `String::push`: the character is appended to the end of the text.
pub assume_specification[ std::string::String::push ](text: &mut std::string::String, ch: char)
    ensures
        final(text)@ == old(text)@.push(ch),
;

/// The characters of a text, one by one.
pub fn chars_of(text: &str) -> (r: Vec<char>)
    ensures
        r@ == text@,
{
    let mut out: Vec<char> = Vec::new();
    for c in it: text.chars()
        invariant
            it.seq() == text@,
            out@ == it.seq().take(it.index() as int),
    {
        out.push(c);
    }
    out
}

/// The text that the given characters make up.
pub fn text_of(chars: &Vec<char>) -> (r: String)
    ensures
        r@ == chars@,
{
    let mut out = String::new();
    let mut k: usize = 0;
    while k < chars.len()
        invariant
            k <= chars.len(),
            out@ == chars@.take(k as int),
        decreases chars.len() - k,
    {
        out.push(chars[k]);
        k += 1;
    }
    out
}

/// Whether the characters spell the given word.
pub fn spells(chars: &Vec<char>, word: &str) -> (r: bool)
    ensures
        r == (chars@ == word@),
{
    let n = word.unicode_len();
    if chars.len() != n {
        return false;
    }
    let mut k: usize = 0;
    while k < n
        invariant
            k <= n,
            n == chars@.len(),
            n == word@.len(),
            chars@.take(k as int) == word@.take(k as int),
        decreases n - k,
    {
        if chars[k] != word.get_char(k) {
            return false;
        }
        k += 1;
        assert(chars@.take(k as int) =~= chars@.take(k - 1).push(chars@[k - 1]));
        assert(word@.take(k as int) =~= word@.take(k - 1).push(word@[k - 1]));
    }
    assert(chars@ =~= chars@.take(n as int));
    assert(word@ =~= word@.take(n as int));
    true
}

} // verus!
