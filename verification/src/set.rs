//! MySQL `SET` values: members separated by commas.

use vstd::prelude::*;
use crate::text::to_chars;
use crate::value::texts;

verus! {

/// The pieces of a text between its commas: one more than there are commas.
pub open spec fn pieces(text: Seq<char>) -> Seq<Seq<char>>
    decreases text.len(),
{
    if text.len() == 0 {
        seq![Seq::empty()]
    } else {
        let before = pieces(text.drop_last());
        if text.last() == ',' {
            before.push(Seq::empty())
        } else {
            before.update(before.len() - 1, before.last().push(text.last()))
        }
    }
}

/// The members that a `SET` text lists. The empty text lists none.
pub open spec fn set_members(text: Seq<char>) -> Seq<Seq<char>> {
    if text.len() == 0 {
        Seq::empty()
    } else {
        pieces(text)
    }
}

/// The text that lists `members`, with a comma between neighbours.
pub open spec fn set_text(members: Seq<Seq<char>>) -> Seq<char>
    decreases members.len(),
{
    if members.len() == 0 {
        Seq::empty()
    } else if members.len() == 1 {
        members[0]
    } else {
        set_text(members.drop_last()).push(',') + members.last()
    }
}

/// Convert a SET string back to a vector of strings.
pub fn parse_mysql_set(set_str: &str) -> (members: Vec<String>)
    ensures
        texts(members@) == set_members(set_str@),
{
    let mut members: Vec<String> = Vec::new();
    if set_str.is_empty() {
        assert(texts(members@) =~= set_members(set_str@));
        return members;
    }
    let chars: Vec<char> = to_chars(set_str);
    let mut current: String = String::new();
    assert(texts(members@).push(current@) =~= pieces(chars@.take(0)));
    for i in 0..chars.len()
        invariant
            texts(members@).push(current@) == pieces(chars@.take(i as int)),
    {
        let ghost before = texts(members@).push(current@);
        let c: char = chars[i];
        let ghost text = chars@.take(i + 1);
        assert(text.drop_last() =~= chars@.take(i as int));
        assert(text.last() == c);
        if c == ',' {
            members.push(current);
            current = String::new();
            assert(texts(members@) =~= before);
            assert(texts(members@).push(current@) =~= pieces(text));
        } else {
            current.push(c);
            assert(texts(members@).push(current@) =~= pieces(text));
        }
    }
    assert(chars@.take(chars@.len() as int) =~= chars@);
    let ghost before = texts(members@).push(current@);
    members.push(current);
    assert(texts(members@) =~= before);
    members
}

/// Join a SET vector into a MySQL SET string.
pub fn format_mysql_set(set_values: &[String]) -> (text: String)
    ensures
        text@ == set_text(texts(set_values@)),
{
    let mut text: String = String::new();
    let ghost members = texts(set_values@);
    for i in 0..set_values.len()
        invariant
            members == texts(set_values@),
            text@ == set_text(members.take(i as int)),
    {
        let ghost longer = members.take(i + 1);
        assert(longer.drop_last() =~= members.take(i as int));
        assert(longer.last() == set_values@[i as int]@);
        if i > 0 {
            text.push(',');
        }
        text.append(set_values[i].as_str());
        assert(text@ =~= set_text(longer));
    }
    assert(members.take(members.len() as int) =~= members);
    text
}

/// A text is its pieces put together again.
proof fn lemma_pieces_rejoin(text: Seq<char>)
    ensures
        pieces(text).len() > 0,
        set_text(pieces(text)) == text,
    decreases text.len(),
{
    if text.len() == 0 {
        assert(set_text(pieces(text)) =~= text);
    } else {
        let shorter = text.drop_last();
        let before = pieces(shorter);
        lemma_pieces_rejoin(shorter);
        assert(text =~= shorter.push(text.last()));
        if text.last() == ',' {
            let after = before.push(Seq::empty());
            assert(after.drop_last() =~= before);
            assert(set_text(after) =~= text);
        } else {
            let after = before.update(before.len() - 1, before.last().push(text.last()));
            assert(after.drop_last() =~= before.drop_last());
            assert(after.last() == before.last().push(text.last()));
            assert(set_text(after) =~= text);
        }
    }
}

/// Characters other than commas lengthen the last piece.
proof fn lemma_pieces_extend(text: Seq<char>, tail: Seq<char>)
    requires
        !tail.contains(','),
    ensures
        pieces(text).len() > 0,
        pieces(text + tail) == pieces(text).update(
            pieces(text).len() - 1,
            pieces(text).last() + tail,
        ),
    decreases tail.len(),
{
    lemma_pieces_rejoin(text);
    let before = pieces(text);
    if tail.len() == 0 {
        assert(text + tail =~= text);
        assert(before.last() + tail =~= before.last());
        assert(before.update(before.len() - 1, before.last() + tail) =~= before);
    } else {
        let shorter = tail.drop_last();
        assert forall|c: char| #[trigger] shorter.contains(c) implies c != ',' by {
            let i = choose|i: int| 0 <= i < shorter.len() && shorter[i] == c;
            assert(tail[i] == c);
            assert(tail.contains(c));
        }
        lemma_pieces_extend(text, shorter);
        let whole = text + tail;
        assert(whole.drop_last() =~= text + shorter);
        assert(whole.last() == tail.last());
        assert(tail[tail.len() - 1] == tail.last());
        assert(tail.contains(tail.last()));
        assert(before.last() + tail =~= (before.last() + shorter).push(tail.last()));
        assert(pieces(whole) =~= before.update(before.len() - 1, before.last() + tail));
    }
}

/// Members without commas are the pieces of the text that lists them.
proof fn lemma_members_are_pieces(members: Seq<Seq<char>>)
    requires
        members.len() > 0,
        forall|i: int| 0 <= i < members.len() ==> !(#[trigger] members[i]).contains(','),
    ensures
        pieces(set_text(members)) == members,
    decreases members.len(),
{
    if members.len() == 1 {
        lemma_pieces_extend(Seq::empty(), members[0]);
        assert(Seq::empty() + members[0] =~= members[0]);
        assert(pieces(members[0]) =~= members);
    } else {
        let front = members.drop_last();
        assert forall|i: int| 0 <= i < front.len() implies !(#[trigger] front[i]).contains(',') by {
            assert(front[i] == members[i]);
        }
        lemma_members_are_pieces(front);
        let opened = set_text(front).push(',');
        assert(opened.drop_last() =~= set_text(front));
        assert(pieces(opened) == front.push(Seq::empty()));
        assert(members.last() == members[members.len() - 1]);
        lemma_pieces_extend(opened, members.last());
        assert(Seq::empty() + members.last() =~= members.last());
        assert(pieces(set_text(members)) =~= members);
    }
}

/// Reading a `SET` text and writing the members down again gives the same text.
pub proof fn law_set_text_survives(text: Seq<char>)
    ensures
        set_text(set_members(text)) == text,
{
    if text.len() == 0 {
        assert(set_text(set_members(text)) =~= text);
    } else {
        lemma_pieces_rejoin(text);
    }
}

/// No piece holds a comma.
proof fn lemma_pieces_hold_no_comma(text: Seq<char>)
    ensures
        pieces(text).len() > 0,
        forall|i: int| 0 <= i < pieces(text).len() ==> !(#[trigger] pieces(text)[i]).contains(','),
    decreases text.len(),
{
    if text.len() > 0 {
        let before = pieces(text.drop_last());
        lemma_pieces_hold_no_comma(text.drop_last());
        let c = text.last();
        assert forall|i: int| 0 <= i < pieces(text).len() implies !(#[trigger] pieces(
            text,
        )[i]).contains(',') by {
            if c != ',' && i == before.len() - 1 {
                let piece = pieces(text)[i];
                assert(piece == before.last().push(c));
                if piece.contains(',') {
                    let k = choose|k: int| 0 <= k < piece.len() && piece[k] == ',';
                    assert(before.last()[k] == ',');
                    assert(before[i].contains(','));
                }
            } else if i < before.len() {
                assert(pieces(text)[i] == before[i]);
            }
        }
    }
}

/// How many commas a text holds.
pub open spec fn commas(text: Seq<char>) -> nat
    decreases text.len(),
{
    if text.len() == 0 {
        0
    } else {
        commas(text.drop_last()) + if text.last() == ',' {
            1nat
        } else {
            0nat
        }
    }
}

/// There is one more piece than there are commas.
proof fn lemma_pieces_count(text: Seq<char>)
    ensures
        pieces(text).len() == 1 + commas(text),
    decreases text.len(),
{
    if text.len() > 0 {
        lemma_pieces_count(text.drop_last());
    }
}

/// A `SET` text that is not empty lists one more member than it holds commas, and no member holds
/// a comma.
pub proof fn law_commas_separate_members(text: Seq<char>)
    ensures
        text.len() > 0 ==> set_members(text).len() == 1 + commas(text),
        forall|i: int|
            0 <= i < set_members(text).len() ==> !(#[trigger] set_members(text)[i]).contains(','),
{
    lemma_pieces_count(text);
    lemma_pieces_hold_no_comma(text);
}

/// Writing members down and reading them again gives the same members exactly where no member
/// holds a comma and they are not a single empty member: the text of that is empty, and the empty
/// text lists nothing.
pub proof fn law_set_members_survive(members: Seq<Seq<char>>)
    ensures
        set_members(set_text(members)) == members <==> {
            &&& forall|i: int| 0 <= i < members.len() ==> !(#[trigger] members[i]).contains(',')
            &&& members != seq![Seq::<char>::empty()]
        },
{
    let survives = set_members(set_text(members)) == members;
    lemma_pieces_hold_no_comma(set_text(members));
    if members.len() == 0 {
        assert(set_members(set_text(members)) =~= members);
    } else {
        if survives {
            assert(members == pieces(set_text(members)));
        }
        if members.len() == 1 {
            if members[0].len() == 0 {
                assert(members[0] =~= Seq::<char>::empty());
                assert(members =~= seq![Seq::<char>::empty()]);
                assert(set_members(set_text(members)).len() == 0);
            }
        } else {
            assert(set_text(members).len() >= 1);
        }
        if forall|i: int| 0 <= i < members.len() ==> !(#[trigger] members[i]).contains(',') {
            lemma_members_are_pieces(members);
        }
    }
}

/// One member is listed by its own text, none by the empty text, and two lists in a row by their
/// texts with a comma between them.
pub proof fn law_lists_are_joined_by_commas(member: Seq<char>, a: Seq<Seq<char>>, b: Seq<Seq<char>>)
    ensures
        set_text(Seq::empty()) == Seq::<char>::empty(),
        set_text(seq![member]) == member,
        a.len() > 0 && b.len() > 0 ==> set_text(a + b) == set_text(a) + seq![','] + set_text(b),
    decreases b.len(),
{
    if a.len() > 0 && b.len() > 0 {
        let front = b.drop_last();
        assert((a + b).drop_last() =~= a + front);
        assert((a + b).last() == b.last());
        if b.len() == 1 {
            assert(a + front =~= a);
            assert(set_text(a + b) =~= set_text(a) + seq![','] + set_text(b));
        } else {
            law_lists_are_joined_by_commas(member, a, front);
            assert(set_text(a + b) =~= set_text(a) + seq![','] + set_text(b));
        }
    }
}

/// The empty text lists no members, and a text without commas lists itself. Members on both sides
/// of a comma are those of the texts on both sides, an empty text standing for an empty member.
pub proof fn law_members_stand_between_commas(left: Seq<char>, right: Seq<char>)
    ensures
        set_members(Seq::empty()).len() == 0,
        left.len() > 0 && !left.contains(',') ==> set_members(left) == seq![left],
        left.len() > 0 && right.len() > 0 ==> set_members(left + seq![','] + right) == set_members(
            left,
        ) + set_members(right),
        left.len() > 0 ==> set_members(left + seq![',']) == set_members(left).push(Seq::empty()),
        right.len() > 0 ==> set_members(seq![','] + right) == seq![Seq::<char>::empty()]
            + set_members(right),
        set_members(seq![',']) == seq![Seq::<char>::empty(), Seq::<char>::empty()],
{
    if left.len() > 0 && !left.contains(',') {
        lemma_pieces_extend(Seq::empty(), left);
        assert(Seq::empty() + left =~= left);
        assert(pieces(left) =~= seq![left]);
    }
    lemma_pieces_of_both(left, right);
    lemma_pieces_of_both(left, Seq::empty());
    lemma_pieces_of_both(Seq::empty(), right);
    lemma_pieces_of_both(Seq::empty(), Seq::empty());
    assert(left + seq![','] + Seq::<char>::empty() =~= left + seq![',']);
    assert(Seq::<char>::empty() + seq![','] + right =~= seq![','] + right);
    assert(Seq::<char>::empty() + seq![','] + Seq::<char>::empty() =~= seq![',']);
    assert(pieces(left) + seq![Seq::<char>::empty()] =~= pieces(left).push(Seq::empty()));
    assert(seq![Seq::<char>::empty()] + seq![Seq::<char>::empty()] =~= seq![
        Seq::<char>::empty(),
        Seq::<char>::empty(),
    ]);
}

/// The pieces of two texts with a comma between them are the pieces of each.
proof fn lemma_pieces_of_both(left: Seq<char>, right: Seq<char>)
    ensures
        pieces(left + seq![','] + right) == pieces(left) + pieces(right),
    decreases right.len(),
{
    let whole = left + seq![','] + right;
    if right.len() == 0 {
        assert(whole.drop_last() =~= left);
        assert(whole.last() == ',');
        assert(pieces(whole) =~= pieces(left) + pieces(right));
    } else {
        let front = right.drop_last();
        lemma_pieces_of_both(left, front);
        lemma_pieces_rejoin(front);
        assert(whole.drop_last() =~= left + seq![','] + front);
        assert(whole.last() == right.last());
        assert(pieces(whole) =~= pieces(left) + pieces(right));
    }
}

} // verus!
