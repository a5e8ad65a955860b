//! What goes into a query from outside: values, which are written as
//! quoted literals and cannot leave them, and keys, which are held to a
//! closed form.
//!
//! Inside a quoted literal a backslash takes the next character out of
//! play, and a quote that no backslash takes out of play ends the
//! literal. A value is therefore written with a backslash before each of
//! its quotes and backslashes.

use crate::bag::Entry;
use vstd::prelude::*;

verus! {

/// A character as it is written inside a quoted literal: a quote and a
/// backslash after a backslash, anything else as it is.
pub open spec fn escaped_char(c: char) -> Seq<char> {
    if c == '\\' {
        seq!['\\', '\\']
    } else if c == '\'' {
        seq!['\\', '\'']
    } else {
        seq![c]
    }
}

/// A value as it is written inside a quoted literal.
pub open spec fn escaped(value: Seq<char>) -> Seq<char>
    decreases value.len(),
{
    if value.len() == 0 {
        Seq::empty()
    } else {
        escaped(value.drop_last()) + escaped_char(value.last())
    }
}

/// What reading `text` inside a quoted literal comes to: nothing where a
/// quote in it ends the literal; else whether its last character is a
/// backslash that takes the next character out of play.
/// `after_backslash` says whether such a backslash stands before `text`.
pub open spec fn read_on(text: Seq<char>, after_backslash: bool) -> Option<bool>
    decreases text.len(),
{
    if text.len() == 0 {
        Some(after_backslash)
    } else if after_backslash {
        read_on(text.drop_first(), false)
    } else if text[0] == '\\' {
        read_on(text.drop_first(), true)
    } else if text[0] == '\'' {
        None
    } else {
        read_on(text.drop_first(), false)
    }
}

/// Whether `text`, written between two quotes, stays between them: no
/// quote in it ends the literal, and no backslash at its end takes the
/// closing quote out of play.
pub open spec fn stays_inside(text: Seq<char>) -> bool {
    read_on(text, false) == Some(false)
}

/// Reading two texts one after the other is reading the first and going
/// on with the second.
pub proof fn lemma_read_on_both(first: Seq<char>, second: Seq<char>, after_backslash: bool)
    ensures
        read_on(first + second, after_backslash) == match read_on(first, after_backslash) {
            Some(state) => read_on(second, state),
            None => None,
        },
    decreases first.len(),
{
    if first.len() == 0 {
        assert(first + second =~= second);
    } else {
        assert((first + second).drop_first() =~= first.drop_first() + second);
        assert((first + second)[0] == first[0]);
        if after_backslash {
            lemma_read_on_both(first.drop_first(), second, false);
        } else if first[0] == '\\' {
            lemma_read_on_both(first.drop_first(), second, true);
        } else if first[0] != '\'' {
            lemma_read_on_both(first.drop_first(), second, false);
        }
    }
}

/// Whatever a value holds, it stays inside its literal once it is
/// written as `escaped` writes it: it can neither end the literal nor
/// add anything to the query behind it.
pub proof fn law_escaped_values_stay_inside(value: Seq<char>)
    ensures
        stays_inside(escaped(value)),
    decreases value.len(),
{
    if value.len() > 0 {
        let c = value.last();
        let written = escaped_char(c);
        law_escaped_values_stay_inside(value.drop_last());
        lemma_read_on_both(escaped(value.drop_last()), written, false);
        if c == '\\' || c == '\'' {
            assert(written.drop_first() =~= seq![c]);
            assert(written.drop_first().drop_first() =~= Seq::<char>::empty());
            assert(read_on(written.drop_first().drop_first(), false) == Some(false));
            assert(read_on(written.drop_first(), true) == Some(false));
        } else {
            assert(written.drop_first() =~= Seq::<char>::empty());
            assert(read_on(written.drop_first(), false) == Some(false));
        }
        assert(read_on(written, false) == Some(false));
    }
}

/// The value as it is written inside a quoted literal.
pub fn escape(value: &str) -> (r: String)
    ensures
        r@ == escaped(value@),
        stays_inside(r@),
{
    let n = value.unicode_len();
    let mut out = String::new();
    let mut i: usize = 0;
    while i < n
        invariant
            i <= n,
            n == value@.len(),
            out@ == escaped(value@.take(i as int)),
        decreases n - i,
    {
        proof {
            reveal_strlit("\\\\");
            reveal_strlit("\\'");
            assert(value@.take(i + 1).drop_last() =~= value@.take(i as int));
            assert(value@.take(i + 1).last() == value@[i as int]);
        }
        let c = value.get_char(i);
        if c == '\\' {
            assert("\\\\"@ =~= escaped_char(c));
            out.append("\\\\");
        } else if c == '\'' {
            assert("\\'"@ =~= escaped_char(c));
            out.append("\\'");
        } else {
            let one = value.substring_char(i, i + 1);
            assert(one@ =~= escaped_char(c));
            out.append(one);
        }
        i = i + 1;
    }
    proof {
        assert(value@.take(i as int) =~= value@);
        law_escaped_values_stay_inside(value@);
    }
    out
}

/// Whether a character may stand in a key: a letter, a digit or an
/// underscore.
pub open spec fn is_key_char(c: char) -> bool {
    ||| 'a' <= c <= 'z'
    ||| 'A' <= c <= 'Z'
    ||| '0' <= c <= '9'
    ||| c == '_'
}

/// Whether a text may stand as a key in a query: it is not empty and
/// holds letters, digits and underscores only.
pub open spec fn is_key(key: Seq<char>) -> bool {
    key.len() > 0 && forall|i: int| 0 <= i < key.len() ==> is_key_char(#[trigger] key[i])
}

/// Whether every key of the entries may stand in a query.
pub open spec fn keys_are_plain(entries: Seq<Entry>) -> bool {
    forall|i: int| 0 <= i < entries.len() ==> is_key((#[trigger] entries[i]).0)
}

/// Whether every key of the map may stand in a query.
pub open spec fn all_keys_plain(entries: Map<Seq<char>, Seq<char>>) -> bool {
    forall|key: Seq<char>| #[trigger] entries.contains_key(key) ==> is_key(key)
}

/// The message of a key that may not stand in a query.
pub open spec fn key_refused() -> Seq<char> {
    "A property key may hold letters, digits and underscores only!"@
}

/// Whether `key` may stand as a key in a query.
pub fn key_is_plain(key: &str) -> (r: bool)
    ensures
        r == is_key(key@),
{
    let n = key.unicode_len();
    if n == 0 {
        return false;
    }
    let mut i: usize = 0;
    while i < n
        invariant
            i <= n,
            n == key@.len(),
            forall|j: int| 0 <= j < i ==> is_key_char(#[trigger] key@[j]),
        decreases n - i,
    {
        let c = key.get_char(i);
        let plain = ('a' <= c && c <= 'z') || ('A' <= c && c <= 'Z') || ('0' <= c && c <= '9') || c
            == '_';
        if !plain {
            return false;
        }
        i = i + 1;
    }
    true
}

/// Whether every key of the listed entries may stand in a query.
pub fn listed_keys_are_plain(items: &Vec<(String, String)>) -> (r: bool)
    ensures
        r == keys_are_plain(crate::bag::entry_views(items@)),
{
    let mut i: usize = 0;
    while i < items.len()
        invariant
            i <= items.len(),
            forall|j: int|
                0 <= j < i ==> is_key((#[trigger] crate::bag::entry_views(items@)[j]).0),
        decreases items.len() - i,
    {
        if !key_is_plain(items[i].0.as_str()) {
            assert(!is_key(crate::bag::entry_views(items@)[i as int].0));
            return false;
        }
        i = i + 1;
    }
    true
}

/// A listing of a map has plain keys exactly where the map has.
pub proof fn lemma_listed_keys(listing: Seq<Entry>, entries: Map<Seq<char>, Seq<char>>)
    requires
        crate::bag::lists(listing, entries),
    ensures
        keys_are_plain(listing) == all_keys_plain(entries),
{
    if all_keys_plain(entries) {
        assert forall|i: int| 0 <= i < listing.len() implies is_key((#[trigger] listing[i]).0) by {
            assert(entries.contains_pair(listing[i].0, listing[i].1));
            assert(entries.contains_key(listing[i].0));
        }
    }
    if keys_are_plain(listing) {
        assert forall|key: Seq<char>| #[trigger] entries.contains_key(key) implies is_key(key) by {
            let i = choose|i: int| 0 <= i < listing.len() && (#[trigger] listing[i]).0 == key;
            assert(is_key(listing[i].0));
        }
    }
}

} // verus!
