//! Source text, built piece by piece.
//!
//! Generated code is plain text in which neighbouring tokens are separated by
//! one space. A delimited group hugs its content in parentheses and brackets
//! and is padded inside braces.

use vstd::prelude::*;

verus! {

/// `a` followed by `b`, separated by one space where neither is empty.
pub open spec fn spaced(a: Seq<char>, b: Seq<char>) -> Seq<char> {
    if a.len() == 0 {
        b
    } else if b.len() == 0 {
        a
    } else {
        a + " "@ + b
    }
}

/// The first `n` of `pieces` in order, with one space between non-empty
/// neighbours.
pub open spec fn join_first(pieces: Seq<Seq<char>>, n: nat) -> Seq<char>
    decreases n,
{
    if n == 0 {
        Seq::empty()
    } else {
        spaced(join_first(pieces, (n - 1) as nat), pieces[n - 1])
    }
}

/// All of `pieces` in order, with one space between non-empty neighbours.
pub open spec fn join(pieces: Seq<Seq<char>>) -> Seq<char> {
    join_first(pieces, pieces.len())
}

/// The views of a list of texts.
pub open spec fn texts(v: Seq<String>) -> Seq<Seq<char>> {
    v.map_values(|s: String| s@)
}

/// The first `n` of `items` with a comma between neighbours.
pub open spec fn comma_first(items: Seq<Seq<char>>, n: nat) -> Seq<char>
    decreases n,
{
    if n == 0 {
        Seq::empty()
    } else if n == 1 {
        items[0]
    } else {
        spaced(spaced(comma_first(items, (n - 1) as nat), ","@), items[n - 1])
    }
}

/// The items in order with a comma between neighbours: `a , b , c`.
pub open spec fn comma_separated(items: Seq<Seq<char>>) -> Seq<char> {
    comma_first(items, items.len())
}

/// Every item between `before` and `after`, all in order.
pub open spec fn wrapped_each(items: Seq<Seq<char>>, before: Seq<char>, after: Seq<char>) -> Seq<
    char,
> {
    join(items.map_values(|t: Seq<char>| join(seq![before, t, after])))
}

/// The positional bindings `f0`, `f1` and so on, `n` of them.
pub open spec fn positionals(n: nat) -> Seq<Seq<char>> {
    Seq::new(n, |i: int| positional(i as nat))
}

/// `inner` between parentheses.
pub open spec fn paren(inner: Seq<char>) -> Seq<char> {
    "("@ + inner + ")"@
}

/// `inner` between brackets.
pub open spec fn bracket(inner: Seq<char>) -> Seq<char> {
    "["@ + inner + "]"@
}

/// `inner` between braces, padded by one space on each side; `{ }` when empty.
pub open spec fn brace(inner: Seq<char>) -> Seq<char> {
    if inner.len() == 0 {
        "{ }"@
    } else {
        "{ "@ + inner + " }"@
    }
}

/// The numeral of a single decimal digit.
pub open spec fn digit(d: nat) -> Seq<char> {
    if d == 0 {
        "0"@
    } else if d == 1 {
        "1"@
    } else if d == 2 {
        "2"@
    } else if d == 3 {
        "3"@
    } else if d == 4 {
        "4"@
    } else if d == 5 {
        "5"@
    } else if d == 6 {
        "6"@
    } else if d == 7 {
        "7"@
    } else if d == 8 {
        "8"@
    } else {
        "9"@
    }
}

/// The decimal numeral of `n`: no sign, no suffix, no leading zero.
pub open spec fn decimal(n: nat) -> Seq<char>
    decreases n,
{
    if n < 10 {
        digit(n)
    } else {
        decimal(n / 10) + digit(n % 10)
    }
}

/// The positional binding `f<index>` that stands for a field without a name.
pub open spec fn positional(index: nat) -> Seq<char> {
    "f"@ + decimal(index)
}

/// Whether `a` and `b` are the same text.
pub fn same_text(a: &str, b: &str) -> (r: bool)
    ensures
        r == (a@ == b@),
{
    let x = String::from_str(a);
    let y = String::from_str(b);
    x == y
}

/// Appends `word` to `out`, after a space where both are non-empty.
pub fn push_word(out: &mut String, word: &str)
    ensures
        final(out)@ == spaced(old(out)@, word@),
{
    if word.is_empty() {
        return ;
    }
    if out.as_str().is_empty() {
        out.append(word);
        assert(final(out)@ =~= word@);
    } else {
        out.append(" ");
        out.append(word);
    }
}

/// Joins `pieces` with single spaces.
pub fn join_all(pieces: &Vec<String>) -> (r: String)
    ensures
        r@ == join(texts(pieces@)),
{
    let mut r = String::new();
    let mut i: usize = 0;
    while i < pieces.len()
        invariant
            i <= pieces.len(),
            r@ == join_first(texts(pieces@), i as nat),
        decreases pieces.len() - i,
    {
        push_word(&mut r, pieces[i].as_str());
        i += 1;
    }
    r
}

/// Joins `items` with a comma between neighbours.
pub fn comma_list(items: &Vec<String>) -> (r: String)
    ensures
        r@ == comma_separated(texts(items@)),
{
    let mut r = String::new();
    let mut i: usize = 0;
    while i < items.len()
        invariant
            i <= items.len(),
            r@ == comma_first(texts(items@), i as nat),
        decreases items.len() - i,
    {
        if i == 0 {
            r = items[i].clone();
        } else {
            push_word(&mut r, ",");
            push_word(&mut r, items[i].as_str());
        }
        i += 1;
    }
    r
}

/// Writes every item between `before` and `after`, all in order.
pub fn wrap_each(items: &Vec<String>, before: &str, after: &str) -> (r: String)
    ensures
        r@ == wrapped_each(texts(items@), before@, after@),
{
    let mut wrapped: Vec<String> = Vec::new();
    let mut i: usize = 0;
    while i < items.len()
        invariant
            i <= items.len(),
            wrapped@.len() == i,
            forall|j: int|
                0 <= j < i ==> (#[trigger] wrapped@[j])@ == join(seq![before@, items@[j]@, after@]),
        decreases items.len() - i,
    {
        let mut item = String::new();
        push_word(&mut item, before);
        push_word(&mut item, items[i].as_str());
        push_word(&mut item, after);
        proof {
            reveal_with_fuel(join_first, 4);
        }
        wrapped.push(item);
        i += 1;
    }
    assert(texts(wrapped@) =~= texts(items@).map_values(
        |t: Seq<char>| join(seq![before@, t, after@]),
    ));
    join_all(&wrapped)
}

/// Writes the positional bindings `f0`, `f1` and so on, `n` of them.
pub fn positional_names(n: usize) -> (r: Vec<String>)
    ensures
        texts(r@) == positionals(n as nat),
{
    let mut names: Vec<String> = Vec::new();
    let mut i: usize = 0;
    while i < n
        invariant
            i <= n,
            names@.len() == i,
            forall|j: int| 0 <= j < i ==> (#[trigger] names@[j])@ == positional(j as nat),
        decreases n - i,
    {
        names.push(positional_name(i));
        i += 1;
    }
    assert(texts(names@) =~= positionals(n as nat));
    names
}

/// `inner` wrapped in parentheses.
pub fn parenthesized(inner: &str) -> (r: String)
    ensures
        r@ == paren(inner@),
{
    let mut r = String::from_str("(");
    r.append(inner);
    r.append(")");
    r
}

/// `inner` wrapped in brackets.
pub fn bracketed(inner: &str) -> (r: String)
    ensures
        r@ == bracket(inner@),
{
    let mut r = String::from_str("[");
    r.append(inner);
    r.append("]");
    r
}

/// `inner` wrapped in braces.
pub fn braced(inner: &str) -> (r: String)
    ensures
        r@ == brace(inner@),
{
    if inner.is_empty() {
        String::from_str("{ }")
    } else {
        let mut r = String::from_str("{ ");
        r.append(inner);
        r.append(" }");
        r
    }
}

fn digit_text(d: usize) -> (r: &'static str)
    requires
        d < 10,
    ensures
        r@ == digit(d as nat),
{
    if d == 0 {
        "0"
    } else if d == 1 {
        "1"
    } else if d == 2 {
        "2"
    } else if d == 3 {
        "3"
    } else if d == 4 {
        "4"
    } else if d == 5 {
        "5"
    } else if d == 6 {
        "6"
    } else if d == 7 {
        "7"
    } else if d == 8 {
        "8"
    } else {
        "9"
    }
}

/// Writes `n` in decimal.
pub fn decimal_text(n: usize) -> (r: String)
    ensures
        r@ == decimal(n as nat),
    decreases n,
{
    if n < 10 {
        String::from_str(digit_text(n))
    } else {
        let mut r = decimal_text(n / 10);
        r.append(digit_text(n % 10));
        r
    }
}

/// Writes the positional binding `f<index>`.
pub fn positional_name(index: usize) -> (r: String)
    ensures
        r@ == positional(index as nat),
{
    let mut r = String::from_str("f");
    let digits = decimal_text(index);
    r.append(digits.as_str());
    r
}

} // verus!
