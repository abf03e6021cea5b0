use stratisd::message::{read_str, read_str_array, read_u16, MessageItem, MethodErr};

fn text(s: &str) -> MessageItem {
    MessageItem::Str(s.to_string())
}

#[test]
fn read_str_takes_a_text() {
    let args = vec![text("data"), MessageItem::UInt16(1)];
    assert_eq!(read_str(&args, 0), Ok("data".to_string()));
    assert_eq!(read_str(&args, 1), Err(MethodErr::InvalidArg(1)));
    assert_eq!(read_str(&args, 2), Err(MethodErr::NoArg));
    assert_eq!(read_str(&vec![MessageItem::ObjectPath("/".to_string())], 0), Err(MethodErr::InvalidArg(0)));
}

#[test]
fn read_u16_takes_a_number_of_that_width() {
    let args = vec![text("data"), MessageItem::UInt16(65535), MessageItem::UInt32(1), MessageItem::Int16(1)];
    assert_eq!(read_u16(&args, 1), Ok(65535));
    assert_eq!(read_u16(&args, 0), Err(MethodErr::InvalidArg(0)));
    assert_eq!(read_u16(&args, 2), Err(MethodErr::InvalidArg(2)));
    assert_eq!(read_u16(&args, 3), Err(MethodErr::InvalidArg(3)));
    assert_eq!(read_u16(&args, 4), Err(MethodErr::NoArg));
}

#[test]
fn read_str_array_takes_a_list_of_texts() {
    let list = MessageItem::Array(vec![text("/dev/sda"), text("/dev/sdb")], "s".to_string());
    let empty = MessageItem::Array(Vec::new(), "s".to_string());
    let args = vec![list, empty];
    assert_eq!(read_str_array(&args, 0), Ok(vec!["/dev/sda".to_string(), "/dev/sdb".to_string()]));
    assert_eq!(read_str_array(&args, 1), Ok(Vec::new()));
    assert_eq!(read_str_array(&args, 2), Err(MethodErr::NoArg));
}

#[test]
fn read_str_array_refuses_other_lists() {
    let numbers = MessageItem::Array(vec![MessageItem::UInt16(1)], "q".to_string());
    let mislabelled = MessageItem::Array(vec![text("/dev/sda")], "o".to_string());
    let mixed = MessageItem::Array(vec![text("/dev/sda"), MessageItem::UInt16(1)], "s".to_string());
    let args = vec![numbers, mislabelled, mixed, text("/dev/sda"), MessageItem::Struct(vec![text("/dev/sda")])];
    for i in 0..args.len() {
        assert_eq!(read_str_array(&args, i), Err(MethodErr::InvalidArg(i)));
    }
}

#[test]
fn an_item_without_a_type_is_never_what_is_asked_for() {
    let args = vec![MessageItem::Other, MessageItem::Array(vec![MessageItem::Other], "s".to_string())];
    assert_eq!(read_str(&args, 0), Err(MethodErr::InvalidArg(0)));
    assert_eq!(read_u16(&args, 0), Err(MethodErr::InvalidArg(0)));
    assert_eq!(read_str_array(&args, 0), Err(MethodErr::InvalidArg(0)));
    assert_eq!(read_str_array(&args, 1), Err(MethodErr::InvalidArg(1)));
}
