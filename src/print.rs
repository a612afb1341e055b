//! Rendering lists of displayable items as text.

use vstd::prelude::*;
use vstd::string::to_string_from_display_ensures;

verus! {

/// The text of each string in `parts`.
pub open spec fn texts_of(parts: Seq<String>) -> Seq<Seq<char>> {
    parts.map_values(|p: String| p@)
}

/// `parts` written one after another, with `sep` between each two
/// neighbours.
pub open spec fn joined(parts: Seq<Seq<char>>, sep: Seq<char>) -> Seq<char>
    decreases parts.len(),
{
    if parts.len() == 0 {
        Seq::empty()
    } else if parts.len() == 1 {
        parts[0]
    } else {
        joined(parts.drop_last(), sep) + sep + parts.last()
    }
}

/// `r` is what `items` give when each is rendered through `Display` and the
/// renderings are joined with `sep`.
pub open spec fn renders_joined<T: std::fmt::Display>(items: Seq<T>, sep: Seq<char>, r: Seq<char>) -> bool {
    exists|parts: Seq<String>|
        {
            &&& parts.len() == items.len()
            &&& forall|i: int|
                0 <= i < items.len() ==> #[trigger] to_string_from_display_ensures::<T>(
                    &items[i],
                    parts[i],
                )
            &&& r == joined(texts_of(parts), sep)
        }
}

/// Joins `parts` into one string, with `separator` between each two
/// neighbours.
pub fn join_with_separator(parts: &[String], separator: &str) -> (r: String)
    ensures
        r@ == joined(texts_of(parts@), separator@),
{
    let mut result = String::new();
    let mut i: usize = 0;
    while i < parts.len()
        invariant
            i <= parts@.len(),
            result@ == joined(texts_of(parts@.subrange(0, i as int)), separator@),
        decreases parts@.len() - i,
    {
        let ghost prefix = texts_of(parts@.subrange(0, i as int));
        let ghost next = texts_of(parts@.subrange(0, i + 1));
        assert(next.drop_last() =~= prefix);
        if i > 0 {
            result.append(separator);
        }
        result.append(parts[i].as_str());
        assert(next.len() == i + 1);
        assert(next.last() == parts@[i as int]@);
        if i == 0 {
            assert(result@ =~= joined(next, separator@));
        }
        i = i + 1;
    }
    assert(parts@.subrange(0, parts@.len() as int) =~= parts@);
    result
}

/// Renders each item through `Display` and joins the renderings with
/// `separator`.
pub fn print_vec_to_string<T: std::fmt::Display>(items: &[T], separator: &str) -> (r: String)
    ensures
        renders_joined(items@, separator@, r@),
{
    let mut parts: Vec<String> = Vec::new();
    let mut i: usize = 0;
    while i < items.len()
        invariant
            i <= items@.len(),
            parts@.len() == i,
            forall|j: int|
                0 <= j < i ==> #[trigger] to_string_from_display_ensures::<T>(
                    &items@[j],
                    parts@[j],
                ),
        decreases items@.len() - i,
    {
        let text = items[i].to_string();
        parts.push(text);
        i = i + 1;
    }
    let r = join_with_separator(parts.as_slice(), separator);
    assert(renders_joined(items@, separator@, r@)) by {
        assert(parts@.len() == items@.len());
    }
    r
}

/// Renders the items joined with `", "`.
pub fn print_vec_to_comma_separated_string<T: std::fmt::Display + Iterator>(items: &[T]) -> (r:
    String)
    ensures
        renders_joined(items@, ", "@, r@),
{
    print_vec_to_string(items, ", ")
}

/// Renders the items joined with `"; "`.
pub fn print_vec_to_semicolon_separated_string<T: std::fmt::Display + Iterator>(items: &[T]) -> (r:
    String)
    ensures
        renders_joined(items@, "; "@, r@),
{
    print_vec_to_string(items, "; ")
}

/// Renders the items one per line.
pub fn print_vec_to_newline_separated_string<T: std::fmt::Display + Iterator>(items: &[T]) -> (r:
    String)
    ensures
        renders_joined(items@, "\n"@, r@),
{
    print_vec_to_string(items, "\n")
}

} // verus!
