//! Newlines in the text that a process writes.

use vstd::prelude::*;

verus! {

/// Every occurrence of `from` becomes `to`, from the front to the back.
#[derive(Clone, Copy, PartialEq, Eq, Debug)]
pub struct Replacement {
    pub from: &'static str,
    pub to: &'static str,
}

/// The text with every occurrence of `from`, which is not empty, replaced by `to`. Occurrences are
/// looked for from the front and do not overlap.
pub open spec fn replaced(text: Seq<char>, from: Seq<char>, to: Seq<char>) -> Seq<char>
    decreases text.len(),
{
    if from.len() == 0 || text.len() < from.len() {
        text
    } else if text.take(from.len() as int) == from {
        to + replaced(text.skip(from.len() as int), from, to)
    } else {
        seq![text[0]] + replaced(text.skip(1), from, to)
    }
}

/// The text after the replacements, one after the other.
pub open spec fn all_replaced(text: Seq<char>, replacements: Seq<Replacement>) -> Seq<char>
    decreases replacements.len(),
{
    if replacements.len() == 0 {
        text
    } else {
        all_replaced(
            replaced(text, replacements[0].from@, replacements[0].to@),
            replacements.drop_first(),
        )
    }
}

/// The text with one line feed for each carriage return, and for the line feed behind it where one
/// stands there.
pub open spec fn translated(text: Seq<char>) -> Seq<char>
    decreases text.len(),
{
    if text.len() == 0 {
        text
    } else if text[0] != '\r' {
        seq![text[0]] + translated(text.skip(1))
    } else if text.len() > 1 && text[1] == '\n' {
        seq!['\n'] + translated(text.skip(2))
    } else {
        seq!['\n'] + translated(text.skip(1))
    }
}

/// The replacements that translate newlines: pairs of carriage return and line feed first, then the
/// carriage returns that are left. None where nothing is translated.
pub open spec fn are_newline_replacements(replacements: Seq<Replacement>, translate: bool) -> bool {
    if translate {
        &&& replacements.len() == 2
        &&& replacements[0].from@ == "\r\n"@
        &&& replacements[0].to@ == "\n"@
        &&& replacements[1].from@ == "\r"@
        &&& replacements[1].to@ == "\n"@
    } else {
        replacements.len() == 0
    }
}

pub fn newline_replacements(translate: bool) -> (replacements: Vec<Replacement>)
    ensures
        are_newline_replacements(replacements@, translate),
{
    let mut replacements: Vec<Replacement> = Vec::new();
    if translate {
        replacements.push(Replacement { from: "\r\n", to: "\n" });
        replacements.push(Replacement { from: "\r", to: "\n" });
    }
    replacements
}

/// Replacing the pairs and then what is left is the same as looking at each carriage return once.
proof fn lemma_two_replacements_translate(text: Seq<char>)
    ensures
        replaced(replaced(text, seq!['\r', '\n'], seq!['\n']), seq!['\r'], seq!['\n'])
            == translated(text),
    decreases text.len(),
{
    let pair = seq!['\r', '\n'];
    let feed = seq!['\n'];
    let back = seq!['\r'];
    if text.len() == 0 {
    } else if text.len() > 1 && text[0] == '\r' && text[1] == '\n' {
        assert(text.take(2) =~= pair);
        let rest = replaced(text.skip(2), pair, feed);
        lemma_two_replacements_translate(text.skip(2));
        lemma_first_is_replaced(feed[0], rest);
        assert(feed + rest =~= seq![feed[0]] + rest);
    } else {
        let rest = replaced(text.skip(1), pair, feed);
        if text.len() == 1 {
            assert(text =~= seq![text[0]] + rest);
        } else {
            assert(text.take(2) != pair) by {
                assert(text.take(2)[0] == text[0] && text.take(2)[1] == text[1]);
                assert(pair[0] == '\r' && pair[1] == '\n');
            }
        }
        lemma_two_replacements_translate(text.skip(1));
        lemma_first_is_replaced(text[0], rest);
    }
}

/// A carriage return at the front is replaced, and anything else stays.
proof fn lemma_first_is_replaced(first: char, rest: Seq<char>)
    ensures
        replaced(seq![first] + rest, seq!['\r'], seq!['\n']) == seq![
            if first == '\r' {
                '\n'
            } else {
                first
            },
        ] + replaced(rest, seq!['\r'], seq!['\n']),
{
    let text = seq![first] + rest;
    assert(text.take(1) =~= seq![first]);
    assert(text.skip(1) =~= rest);
    assert(seq![first][0] == first && seq!['\r'][0] == '\r');
}

/// The replacements turn each pair of carriage return and line feed, and each carriage return that
/// stands alone, into one line feed, and change nothing else.
pub proof fn law_replacements_translate_newlines(
    replacements: Seq<Replacement>,
    translate: bool,
    text: Seq<char>,
)
    requires
        are_newline_replacements(replacements, translate),
    ensures
        all_replaced(text, replacements) == if translate {
            translated(text)
        } else {
            text
        },
{
    reveal_with_fuel(all_replaced, 3);
    if translate {
        reveal_strlit("\r\n");
        reveal_strlit("\r");
        reveal_strlit("\n");
        assert("\r\n"@ =~= seq!['\r', '\n']);
        assert("\r"@ =~= seq!['\r']);
        assert("\n"@ =~= seq!['\n']);
        assert(replacements.drop_first()[0] == replacements[1]);
        lemma_two_replacements_translate(text);
    }
}

/// No carriage return is left in a translated text.
pub proof fn law_no_carriage_return_is_left(text: Seq<char>)
    ensures
        !translated(text).contains('\r'),
    decreases text.len(),
{
    if text.len() > 0 {
        let (first, rest) = if text[0] != '\r' {
            (text[0], text.skip(1))
        } else if text.len() > 1 && text[1] == '\n' {
            ('\n', text.skip(2))
        } else {
            ('\n', text.skip(1))
        };
        law_no_carriage_return_is_left(rest);
        assert(translated(text) == seq![first] + translated(rest));
        assert forall|i: int| 0 <= i < translated(text).len() implies translated(text)[i]
            != '\r' by {
            if i > 0 {
                assert(translated(text)[i] == translated(rest)[i - 1]);
                assert(translated(rest).contains(translated(rest)[i - 1]));
            }
        }
    }
}

/// A text without carriage returns stays as it is.
pub proof fn law_plain_text_is_not_translated(text: Seq<char>)
    requires
        !text.contains('\r'),
    ensures
        translated(text) == text,
    decreases text.len(),
{
    if text.len() > 0 {
        assert(text.contains(text[0]));
        let rest = text.skip(1);
        assert forall|i: int| 0 <= i < rest.len() implies rest[i] != '\r' by {
            assert(text.contains(text[i + 1]));
        }
        law_plain_text_is_not_translated(rest);
        assert(seq![text[0]] + rest =~= text);
    }
}

/// What stands before the first carriage return is not translated, and what stands behind it is by
/// itself.
proof fn lemma_front_stays(front: Seq<char>, rest: Seq<char>)
    requires
        !front.contains('\r'),
    ensures
        translated(front + rest) == front + translated(rest),
    decreases front.len(),
{
    if front.len() == 0 {
        assert(front + rest =~= rest);
        assert(front + translated(rest) =~= translated(rest));
    } else {
        let tail = front.skip(1);
        assert(front[0] != '\r') by {
            assert(front.contains(front[0]));
        }
        assert forall|i: int| 0 <= i < tail.len() implies tail[i] != '\r' by {
            assert(front.contains(front[i + 1]));
        }
        lemma_front_stays(tail, rest);
        assert((front + rest).skip(1) =~= tail + rest);
        assert(front + translated(rest) =~= seq![front[0]] + (tail + translated(rest)));
    }
}

/// A line that ends in a carriage return and a line feed ends in one line feed after the
/// translation, and so does one that ends in a carriage return alone; the line itself stays, and the
/// lines behind it are translated by themselves.
pub proof fn law_each_line_end_becomes_one_line_feed(line: Seq<char>, rest: Seq<char>)
    requires
        !line.contains('\r'),
    ensures
        translated(line + seq!['\r', '\n'] + rest) == line + seq!['\n'] + translated(rest),
        rest.len() == 0 || rest[0] != '\n' ==> translated(line + seq!['\r'] + rest) == line + seq![
            '\n',
        ] + translated(rest),
        translated(line + seq!['\n'] + rest) == line + seq!['\n'] + translated(rest),
{
    let pair = seq!['\r', '\n'] + rest;
    assert(line + seq!['\r', '\n'] + rest =~= line + pair);
    lemma_front_stays(line, pair);
    assert(pair.skip(2) =~= rest);
    assert(line + (seq!['\n'] + translated(rest)) =~= line + seq!['\n'] + translated(rest));
    let alone = seq!['\r'] + rest;
    assert(line + seq!['\r'] + rest =~= line + alone);
    lemma_front_stays(line, alone);
    assert(alone.skip(1) =~= rest);
    let feed = seq!['\n'] + rest;
    assert(line + seq!['\n'] + rest =~= line + feed);
    lemma_front_stays(line, feed);
    assert(feed.skip(1) =~= rest);
}

} // verus!
