//! The values that travel in a message: the arguments of a call and the items of a reply.

use crate::names::{str_eq, strings_view};
use vstd::prelude::*;

verus! {

/// One argument of a message.
#[derive(Debug, PartialEq, Eq)]
pub enum MessageItem {
    /// Items of one type, with the signature of that type.
    Array(Vec<MessageItem>, String),
    /// Items of any types, taken together.
    Struct(Vec<MessageItem>),
    /// The path of an object on the bus.
    ObjectPath(String),
    Str(String),
    Bool(bool),
    Byte(u8),
    Int16(i16),
    Int32(i32),
    Int64(i64),
    UInt16(u16),
    UInt32(u32),
    UInt64(u64),
    /// An item of a type that no operation of the service takes or gives.
    Other,
}

/// What a `MessageItem` holds, with every string and list taken by its view.
pub enum Item {
    Array(Seq<Item>, Seq<char>),
    Struct(Seq<Item>),
    ObjectPath(Seq<char>),
    Str(Seq<char>),
    Bool(bool),
    Byte(u8),
    Int16(i16),
    Int32(i32),
    Int64(i64),
    UInt16(u16),
    UInt32(u32),
    UInt64(u64),
    Other,
}

/// What an item holds.
pub open spec fn item_view(item: MessageItem) -> Item
    decreases item,
{
    match item {
        MessageItem::Array(items, sig) => Item::Array(
            Seq::new(
                items@.len(),
                |i: int|
                    if 0 <= i < items@.len() {
                        item_view(items@[i])
                    } else {
                        Item::Bool(false)
                    },
            ),
            sig@,
        ),
        MessageItem::Struct(items) => Item::Struct(
            Seq::new(
                items@.len(),
                |i: int|
                    if 0 <= i < items@.len() {
                        item_view(items@[i])
                    } else {
                        Item::Bool(false)
                    },
            ),
        ),
        MessageItem::ObjectPath(path) => Item::ObjectPath(path@),
        MessageItem::Str(text) => Item::Str(text@),
        MessageItem::Bool(b) => Item::Bool(b),
        MessageItem::Byte(n) => Item::Byte(n),
        MessageItem::Int16(n) => Item::Int16(n),
        MessageItem::Int32(n) => Item::Int32(n),
        MessageItem::Int64(n) => Item::Int64(n),
        MessageItem::UInt16(n) => Item::UInt16(n),
        MessageItem::UInt32(n) => Item::UInt32(n),
        MessageItem::UInt64(n) => Item::UInt64(n),
        MessageItem::Other => Item::Other,
    }
}

impl View for MessageItem {
    type V = Item;

    open spec fn view(&self) -> Item {
        item_view(*self)
    }
}

/// The items of a list, each by its view.
pub open spec fn items_view(items: Seq<MessageItem>) -> Seq<Item> {
    Seq::new(items.len(), |i: int| items[i]@)
}

/// Why a call was turned away before its operation ran.
#[derive(Debug, Clone, Copy, PartialEq, Eq, Structural)]
pub enum MethodErr {
    /// The call has fewer arguments than the operation takes.
    NoArg,
    /// The argument at this place, counted from zero, has the wrong type.
    InvalidArg(usize),
}

/// The items of a reply, or the reason why there is none.
pub type MethodResult = Result<Vec<MessageItem>, MethodErr>;

/// The text at place `i` of a call's arguments.
pub open spec fn arg_str(args: Seq<Item>, i: int) -> Result<Seq<char>, MethodErr> {
    if i >= args.len() {
        Err(MethodErr::NoArg)
    } else {
        match args[i] {
            Item::Str(text) => Ok(text),
            _ => Err(MethodErr::InvalidArg(i as usize)),
        }
    }
}

/// The 16-bit number at place `i` of a call's arguments.
pub open spec fn arg_u16(args: Seq<Item>, i: int) -> Result<u16, MethodErr> {
    if i >= args.len() {
        Err(MethodErr::NoArg)
    } else {
        match args[i] {
            Item::UInt16(n) => Ok(n),
            _ => Err(MethodErr::InvalidArg(i as usize)),
        }
    }
}

/// Whether an item is a list of texts: an array with the signature of a text whose items
/// are all texts.
pub open spec fn is_str_array(item: Item) -> bool {
    item matches Item::Array(items, sig) && sig == "s"@ && forall|k: int|
        0 <= k < items.len() ==> #[trigger] items[k] is Str
}

/// The texts of a list of texts, in their order.
pub open spec fn str_array_texts(item: Item) -> Seq<Seq<char>> {
    Seq::new(item->Array_0.len(), |k: int| item->Array_0[k]->Str_0)
}

/// The list of texts at place `i` of a call's arguments.
pub open spec fn arg_str_array(args: Seq<Item>, i: int) -> Result<Seq<Seq<char>>, MethodErr> {
    if i >= args.len() {
        Err(MethodErr::NoArg)
    } else if is_str_array(args[i]) {
        Ok(str_array_texts(args[i]))
    } else {
        Err(MethodErr::InvalidArg(i as usize))
    }
}

/// Reads the text at place `i` of a call's arguments.
pub fn read_str(args: &Vec<MessageItem>, i: usize) -> (res: Result<String, MethodErr>)
    ensures
        res matches Ok(text) ==> arg_str(items_view(args@), i as int) == Ok::<
            Seq<char>,
            MethodErr,
        >(text@),
        res matches Err(e) ==> arg_str(items_view(args@), i as int) == Err::<Seq<char>, MethodErr>(e),
{
    if i >= args.len() {
        return Err(MethodErr::NoArg);
    }
    match &args[i] {
        MessageItem::Str(text) => Ok(text.clone()),
        _ => Err(MethodErr::InvalidArg(i)),
    }
}

/// Reads the 16-bit number at place `i` of a call's arguments.
pub fn read_u16(args: &Vec<MessageItem>, i: usize) -> (res: Result<u16, MethodErr>)
    ensures
        res == arg_u16(items_view(args@), i as int),
{
    if i >= args.len() {
        return Err(MethodErr::NoArg);
    }
    match &args[i] {
        MessageItem::UInt16(n) => Ok(*n),
        _ => Err(MethodErr::InvalidArg(i)),
    }
}

/// Reads the list of texts at place `i` of a call's arguments.
pub fn read_str_array(args: &Vec<MessageItem>, i: usize) -> (res: Result<Vec<String>, MethodErr>)
    ensures
        res matches Ok(texts) ==> arg_str_array(items_view(args@), i as int) == Ok::<
            Seq<Seq<char>>,
            MethodErr,
        >(strings_view(texts@)),
        res matches Err(e) ==> arg_str_array(items_view(args@), i as int) == Err::<
            Seq<Seq<char>>,
            MethodErr,
        >(e),
{
    if i >= args.len() {
        return Err(MethodErr::NoArg);
    }
    match &args[i] {
        MessageItem::Array(items, sig) => {
            let ghost item = args@[i as int]@;
            proof {
                lemma_view_array(*items, *sig);
            }
            if !str_eq(sig.as_str(), "s") {
                return Err(MethodErr::InvalidArg(i));
            }
            let mut texts: Vec<String> = Vec::new();
            let mut k: usize = 0;
            while k < items.len()
                invariant
                    0 <= k <= items.len(),
                    item == Item::Array(items_view(items@), sig@),
                    item == items_view(args@)[i as int],
                    i < args.len(),
                    texts@.len() == k,
                    forall|j: int| 0 <= j < k ==> #[trigger] items_view(items@)[j] is Str,
                    forall|j: int|
                        0 <= j < k ==> (#[trigger] texts@[j])@ == items_view(items@)[j]->Str_0,
                decreases items.len() - k,
            {
                match &items[k] {
                    MessageItem::Str(text) => {
                        assert(items_view(items@)[k as int] == Item::Str(text@));
                        texts.push(text.clone());
                    },
                    _ => {
                        assert(!(items_view(items@)[k as int] is Str));
                        return Err(MethodErr::InvalidArg(i));
                    },
                }
                k = k + 1;
            }
            assert(strings_view(texts@) =~= str_array_texts(item));
            Ok(texts)
        },
        _ => Err(MethodErr::InvalidArg(i)),
    }
}

/// The view of an array is the array of its items' views, under the same signature.
pub proof fn lemma_view_array(items: Vec<MessageItem>, sig: String)
    ensures
        MessageItem::Array(items, sig)@ == Item::Array(items_view(items@), sig@),
{
    let item = MessageItem::Array(items, sig);
    assert(item@->Array_0 =~= items_view(items@));
}

/// The view of a struct is the struct of its items' views.
pub proof fn lemma_view_struct(items: Vec<MessageItem>)
    ensures
        MessageItem::Struct(items)@ == Item::Struct(items_view(items@)),
{
    let item = MessageItem::Struct(items);
    assert(item@->Struct_0 =~= items_view(items@));
}

} // verus!
