//! Text cut into fields at a separator, and put together again.

use vstd::prelude::*;
use vstd::std_specs::iter::IteratorSpec;
use vstd::string::*;

verus! {

/// The fields of `text`: the stretches between one occurrence of `sep` and
/// the next. There is always at least one field, and `n` separators give
/// `n + 1` fields.
pub open spec fn split(text: Seq<char>, sep: char) -> Seq<Seq<char>>
    decreases text.len(),
{
    if text.len() == 0 {
        seq![Seq::empty()]
    } else {
        let fields = split(text.drop_last(), sep);
        if text.last() == sep {
            fields.push(Seq::empty())
        } else {
            fields.update(fields.len() - 1, fields.last().push(text.last()))
        }
    }
}

/// The fields written one after the other with `sep` between them.
pub open spec fn join(fields: Seq<Seq<char>>, sep: char) -> Seq<char>
    decreases fields.len(),
{
    if fields.len() == 0 {
        Seq::empty()
    } else if fields.len() == 1 {
        fields[0]
    } else {
        join(fields.drop_last(), sep).push(sep) + fields.last()
    }
}

/// What each of the strings holds.
pub open spec fn texts(strings: Seq<String>) -> Seq<Seq<char>> {
    Seq::new(strings.len(), |i: int| strings[i]@)
}

/// A text has at least one field, and no field holds the separator.
pub proof fn lemma_split_fields(text: Seq<char>, sep: char)
    ensures
        split(text, sep).len() >= 1,
        forall|k: int| 0 <= k < split(text, sep).len() ==> !(#[trigger] split(text, sep)[k]).contains(sep),
    decreases text.len(),
{
    if text.len() > 0 {
        lemma_split_fields(text.drop_last(), sep);
        let before = split(text.drop_last(), sep);
        let fields = split(text, sep);
        assert forall|k: int| 0 <= k < fields.len() implies !(#[trigger] fields[k]).contains(sep) by {
            if text.last() == sep {
                if k < before.len() {
                    assert(fields[k] == before[k]);
                }
            } else if k == before.len() - 1 {
                let grown = before.last().push(text.last());
                assert(fields[k] == grown);
                if grown.contains(sep) {
                    let j = choose|j: int| 0 <= j < grown.len() && grown[j] == sep;
                    assert(before.last()[j] == sep);
                    assert(before.last().contains(sep));
                }
            } else {
                assert(fields[k] == before[k]);
            }
        }
    }
}

/// Text after the last separator belongs to the last field.
pub proof fn lemma_split_append(text: Seq<char>, tail: Seq<char>, sep: char)
    requires
        !tail.contains(sep),
    ensures
        split(text, sep).len() >= 1,
        split(text + tail, sep) == split(text, sep).update(
            split(text, sep).len() - 1,
            split(text, sep).last() + tail,
        ),
    decreases tail.len(),
{
    lemma_split_fields(text, sep);
    let fields = split(text, sep);
    if tail.len() == 0 {
        assert(text + tail =~= text);
        assert(fields.last() + tail =~= fields.last());
        assert(fields.update(fields.len() - 1, fields.last()) =~= fields);
    } else {
        let shorter = tail.drop_last();
        assert(!shorter.contains(sep)) by {
            if shorter.contains(sep) {
                let j = choose|j: int| 0 <= j < shorter.len() && shorter[j] == sep;
                assert(tail[j] == sep);
            }
        }
        assert(tail.last() != sep) by {
            assert(tail[tail.len() - 1] == tail.last());
        }
        lemma_split_append(text, shorter, sep);
        assert((text + tail).drop_last() =~= text + shorter);
        assert((text + tail).last() == tail.last());
        assert((fields.last() + shorter).push(tail.last()) =~= fields.last() + tail);
        assert(split(text + tail, sep) =~= fields.update(
            fields.len() - 1,
            fields.last() + tail,
        ));
    }
}

/// A separator at the end opens a new, empty field.
pub proof fn lemma_split_push_sep(text: Seq<char>, sep: char)
    ensures
        split(text.push(sep), sep) == split(text, sep).push(Seq::empty()),
{
    assert(text.push(sep).drop_last() =~= text);
}

/// Joining the fields of a text gives the text back.
pub proof fn lemma_join_split(text: Seq<char>, sep: char)
    ensures
        join(split(text, sep), sep) == text,
    decreases text.len(),
{
    lemma_split_fields(text, sep);
    if text.len() == 0 {
        assert(join(split(text, sep), sep) =~= text);
    } else {
        let before = split(text.drop_last(), sep);
        lemma_split_fields(text.drop_last(), sep);
        lemma_join_split(text.drop_last(), sep);
        lemma_join_grow(before, text.last(), sep);
        if text.last() == sep {
            let fields = before.push(Seq::empty());
            assert(fields.drop_last() =~= before);
            assert(join(fields, sep) =~= join(before, sep).push(sep));
        }
        assert(text =~= text.drop_last().push(text.last()));
    }
}

/// A character added to the last field is added to the joined text.
proof fn lemma_join_grow(fields: Seq<Seq<char>>, c: char, sep: char)
    requires
        fields.len() >= 1,
    ensures
        join(fields.update(fields.len() - 1, fields.last().push(c)), sep) == join(fields, sep).push(
            c,
        ),
{
    let grown = fields.update(fields.len() - 1, fields.last().push(c));
    if fields.len() == 1 {
        assert(join(grown, sep) =~= join(fields, sep).push(c));
    } else {
        assert(grown.drop_last() =~= fields.drop_last());
        assert(join(grown, sep) =~= join(fields, sep).push(c));
    }
}

/// Cutting joined fields apart gives the fields back, where none of them
/// holds the separator.
pub proof fn lemma_split_join(fields: Seq<Seq<char>>, sep: char)
    requires
        fields.len() >= 1,
        forall|k: int| 0 <= k < fields.len() ==> !(#[trigger] fields[k]).contains(sep),
    ensures
        split(join(fields, sep), sep) == fields,
    decreases fields.len(),
{
    if fields.len() == 1 {
        let none: Seq<char> = Seq::empty();
        lemma_split_append(none, fields[0], sep);
        assert(none + fields[0] =~= fields[0]);
        assert(split(fields[0], sep) =~= fields);
    } else {
        let before = fields.drop_last();
        assert forall|k: int| 0 <= k < before.len() implies !(#[trigger] before[k]).contains(
            sep,
        ) by {
            assert(before[k] == fields[k]);
        }
        lemma_split_join(before, sep);
        let head = join(before, sep);
        lemma_split_push_sep(head, sep);
        lemma_split_append(head.push(sep), fields.last(), sep);
        let none: Seq<char> = Seq::empty();
        assert(none + fields.last() =~= fields.last());
        assert(split(join(fields, sep), sep) =~= fields);
    }
}

/// Cuts `text` into its fields.
pub fn split_text(text: &str, sep: char) -> (fields: Vec<String>)
    ensures
        texts(fields@) == split(text@, sep),
{
    let n = text.unicode_len();
    let mut fields: Vec<String> = Vec::new();
    let mut start: usize = 0;
    let mut i: usize = 0;
    let mut chars = text.chars();
    proof {
        assert(text@.subrange(0, 0) =~= Seq::<char>::empty());
        assert(texts(fields@).push(text@.subrange(0, 0)) =~= split(text@.subrange(0, 0), sep));
        assert(text@.subrange(0, n as int) =~= text@);
    }
    while i < n
        invariant
            n == text@.len(),
            start <= i <= n,
            chars.obeys_prophetic_iter_laws(),
            chars.remaining() == text@.subrange(i as int, n as int),
            split(text@.subrange(0, i as int), sep) == texts(fields@).push(
                text@.subrange(start as int, i as int),
            ),
        decreases n - i,
    {
        let ghost done = texts(fields@);
        let ghost prefix = text@.subrange(0, i as int);
        let next = chars.next();
        proof {
            assert(text@.subrange(i as int, n as int)[0] == text@[i as int]);
            assert(text@.subrange(i as int, n as int).drop_first() =~= text@.subrange(
                i + 1,
                n as int,
            ));
            assert(text@.subrange(0, i + 1).drop_last() =~= prefix);
            assert(text@.subrange(0, i + 1).last() == text@[i as int]);
        }
        if next == Some(sep) {
            let field = String::from_str(text.substring_char(start, i));
            fields.push(field);
            start = i + 1;
            proof {
                assert(text@.subrange(start as int, i + 1) =~= Seq::<char>::empty());
                assert(texts(fields@) =~= done.push(field@));
            }
        } else {
            proof {
                let last = text@.subrange(start as int, i as int);
                assert(last.push(text@[i as int]) =~= text@.subrange(start as int, i + 1));
                assert(done.push(last).update(done.len() as int, last.push(text@[i as int]))
                    =~= done.push(text@.subrange(start as int, i + 1)));
            }
        }
        i = i + 1;
    }
    let ghost done = texts(fields@);
    let field = String::from_str(text.substring_char(start, n));
    fields.push(field);
    proof {
        assert(text@.subrange(0, n as int) =~= text@);
        assert(texts(fields@) =~= done.push(field@));
    }
    fields
}

/// Whether `c` occurs in `text`.
pub fn contains_char(text: &str, c: char) -> (found: bool)
    ensures
        found == text@.contains(c),
{
    let n = text.unicode_len();
    let mut i: usize = 0;
    let mut chars = text.chars();
    proof {
        assert(text@.subrange(0, n as int) =~= text@);
    }
    while i < n
        invariant
            n == text@.len(),
            i <= n,
            chars.obeys_prophetic_iter_laws(),
            chars.remaining() == text@.subrange(i as int, n as int),
            forall|k: int| 0 <= k < i ==> text@[k] != c,
        decreases n - i,
    {
        let next = chars.next();
        proof {
            assert(text@.subrange(i as int, n as int)[0] == text@[i as int]);
            assert(text@.subrange(i as int, n as int).drop_first() =~= text@.subrange(
                i + 1,
                n as int,
            ));
        }
        if next == Some(c) {
            return true;
        }
        i = i + 1;
    }
    false
}

} // verus!
