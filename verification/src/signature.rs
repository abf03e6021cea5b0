//! The signatures of items: the letters by which the bus tells the types of values apart.

use crate::message::Item;
use vstd::prelude::*;

verus! {

/// The signature of an item. An array has the letter of arrays and then the signature that
/// it declares for its items; a struct has the signatures of its items between brackets.
pub open spec fn item_sig(item: Item) -> Seq<char>
    decreases item, 0nat,
{
    match item {
        Item::Array(_, sig) => "a"@ + sig,
        Item::Struct(items) => "("@ + items_sig(items, items.len()) + ")"@,
        Item::ObjectPath(_) => "o"@,
        Item::Str(_) => "s"@,
        Item::Bool(_) => "b"@,
        Item::Byte(_) => "y"@,
        Item::Int16(_) => "n"@,
        Item::Int32(_) => "i"@,
        Item::Int64(_) => "x"@,
        Item::UInt16(_) => "q"@,
        Item::UInt32(_) => "u"@,
        Item::UInt64(_) => "t"@,
        Item::Other => Seq::empty(),
    }
}

/// The signatures of the first `n` items, one after the other.
pub open spec fn items_sig(items: Seq<Item>, n: nat) -> Seq<char>
    decreases items, n,
{
    if n == 0 || n > items.len() {
        Seq::empty()
    } else {
        items_sig(items, (n - 1) as nat) + item_sig(items[n - 1])
    }
}

/// Whether an item is what it says it is: the items of an array all have the signature that
/// the array declares, and everything inside is what it says it is, too.
pub open spec fn well_typed(item: Item) -> bool
    decreases item,
{
    match item {
        Item::Array(items, sig) => forall|i: int|
            0 <= i < items.len() ==> item_sig(#[trigger] items[i]) == sig && well_typed(items[i]),
        Item::Struct(items) => forall|i: int|
            0 <= i < items.len() ==> well_typed(#[trigger] items[i]),
        Item::Other => false,
        _ => true,
    }
}

/// The signatures of a list of items, each for itself.
pub open spec fn sigs(items: Seq<Item>) -> Seq<Seq<char>> {
    Seq::new(items.len(), |i: int| item_sig(items[i]))
}

/// The letter with which the signature of an item begins; an item without a type has none.
pub open spec fn first_letter(item: Item) -> Option<char> {
    match item {
        Item::Array(_, _) => Some('a'),
        Item::Struct(_) => Some('('),
        Item::ObjectPath(_) => Some('o'),
        Item::Str(_) => Some('s'),
        Item::Bool(_) => Some('b'),
        Item::Byte(_) => Some('y'),
        Item::Int16(_) => Some('n'),
        Item::Int32(_) => Some('i'),
        Item::Int64(_) => Some('x'),
        Item::UInt16(_) => Some('q'),
        Item::UInt32(_) => Some('u'),
        Item::UInt64(_) => Some('t'),
        Item::Other => None,
    }
}

/// The signature of an item begins with the letter of its kind, and only an item without a
/// type has an empty one.
pub proof fn lemma_first_letter(item: Item)
    ensures
        match first_letter(item) {
            Some(letter) => item_sig(item).len() > 0 && item_sig(item)[0] == letter,
            None => item_sig(item).len() == 0,
        },
{
    lemma_letters();
    match item {
        Item::Array(_, sig) => {
            assert(("a"@ + sig)[0] == 'a');
        },
        Item::Struct(items) => {
            assert(("("@ + items_sig(items, items.len()) + ")"@)[0] == '(');
        },
        _ => {},
    }
}

/// Of all items only texts have the signature of a text.
pub proof fn lemma_sig_of_text(item: Item)
    ensures
        item_sig(item) == "s"@ <==> item is Str,
{
    lemma_letters();
    lemma_first_letter(item);
    if item_sig(item) == "s"@ {
        assert(item_sig(item)[0] == 's');
    }
}

/// Of all items only 16-bit numbers without sign have the signature of such a number.
pub proof fn lemma_sig_of_u16(item: Item)
    ensures
        item_sig(item) == "q"@ <==> item is UInt16,
{
    lemma_letters();
    lemma_first_letter(item);
    if item_sig(item) == "q"@ {
        assert(item_sig(item)[0] == 'q');
    }
}

/// Of all items only arrays that declare texts have the signature of an array of texts.
pub proof fn lemma_sig_of_text_array(item: Item)
    ensures
        item_sig(item) == "as"@ <==> (item matches Item::Array(_, sig) && sig == "s"@),
{
    lemma_letters();
    lemma_first_letter(item);
    reveal_strlit("as");
    assert("a"@ + "s"@ =~= "as"@);
    if item_sig(item) == "as"@ {
        assert(item_sig(item)[0] == 'a');
    }
    if item is Array {
        let sig = item->Array_1;
        assert(("a"@ + sig).skip(1) =~= sig);
        assert(("a"@ + "s"@).skip(1) =~= "s"@);
    }
}

/// The letters of the signatures, each with the one character that it is.
pub proof fn lemma_letters()
    ensures
        "a"@ == seq!['a'],
        "("@ == seq!['('],
        ")"@ == seq![')'],
        "o"@ == seq!['o'],
        "s"@ == seq!['s'],
        "b"@ == seq!['b'],
        "y"@ == seq!['y'],
        "n"@ == seq!['n'],
        "i"@ == seq!['i'],
        "x"@ == seq!['x'],
        "q"@ == seq!['q'],
        "u"@ == seq!['u'],
        "t"@ == seq!['t'],
{
    reveal_strlit("a");
    reveal_strlit("(");
    reveal_strlit(")");
    reveal_strlit("o");
    reveal_strlit("s");
    reveal_strlit("b");
    reveal_strlit("y");
    reveal_strlit("n");
    reveal_strlit("i");
    reveal_strlit("x");
    reveal_strlit("q");
    reveal_strlit("u");
    reveal_strlit("t");
    assert("a"@ =~= seq!['a']);
    assert("("@ =~= seq!['(']);
    assert(")"@ =~= seq![')']);
    assert("o"@ =~= seq!['o']);
    assert("s"@ =~= seq!['s']);
    assert("b"@ =~= seq!['b']);
    assert("y"@ =~= seq!['y']);
    assert("n"@ =~= seq!['n']);
    assert("i"@ =~= seq!['i']);
    assert("x"@ =~= seq!['x']);
    assert("q"@ =~= seq!['q']);
    assert("u"@ =~= seq!['u']);
    assert("t"@ =~= seq!['t']);
}

} // verus!
