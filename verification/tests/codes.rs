use stratisd::dbus_api::{
    code_to_message_items, error_to_message_items, get_dev_types, get_error_codes,
    get_list_items, get_raid_levels, internal_to_dbus_err,
};
use stratisd::dbus_consts::{HasCodes, StratisErrorEnum, StratisRaidType};
use stratisd::message::MessageItem;
use stratisd::types::{ErrorEnum, IoErrorKind, StratisError};

fn text(s: &str) -> MessageItem {
    MessageItem::Str(s.to_string())
}

fn entry(label: &str, code: u16, message: &str) -> MessageItem {
    MessageItem::Struct(vec![text(label), MessageItem::UInt16(code), text(message)])
}

#[test]
fn outcome_categories_have_their_numbers_and_texts() {
    let expected = [
        (StratisErrorEnum::STRATIS_OK, "STRATIS_OK", 0, "Ok"),
        (StratisErrorEnum::STRATIS_ERROR, "STRATIS_ERROR", 1, "A general error happened"),
        (StratisErrorEnum::STRATIS_NULL, "STRATIS_NULL", 2, "Null parameter was supplied"),
        (StratisErrorEnum::STRATIS_NOTFOUND, "STRATIS_NOTFOUND", 3, "Not found"),
        (StratisErrorEnum::STRATIS_POOL_NOTFOUND, "STRATIS_POOL_NOTFOUND", 4, "Pool not found"),
        (StratisErrorEnum::STRATIS_VOLUME_NOTFOUND, "STRATIS_VOLUME_NOTFOUND", 5, "Volume not found"),
        (StratisErrorEnum::STRATIS_DEV_NOTFOUND, "STRATIS_DEV_NOTFOUND", 6, "Dev not found"),
        (StratisErrorEnum::STRATIS_CACHE_NOTFOUND, "STRATIS_CACHE_NOTFOUND", 7, "Cache not found"),
        (StratisErrorEnum::STRATIS_BAD_PARAM, "STRATIS_BAD_PARAM", 8, "Bad parameter"),
        (StratisErrorEnum::STRATIS_ALREADY_EXISTS, "STRATIS_ALREADY_EXISTS", 9, "Already exists"),
        (StratisErrorEnum::STRATIS_NULL_NAME, "STRATIS_NULL_NAME", 10, "Null name supplied"),
        (StratisErrorEnum::STRATIS_NO_POOLS, "STRATIS_NO_POOLS", 11, "No pools"),
        (StratisErrorEnum::STRATIS_LIST_FAILURE, "STRATIS_LIST_FAILURE", 12, "List operation failure."),
    ];
    let all = StratisErrorEnum::iter_variants();
    assert_eq!(all.len(), expected.len());
    for (i, (code, label, number, message)) in expected.iter().enumerate() {
        assert_eq!(all[i], *code);
        assert_eq!(code.to_string(), *label);
        assert_eq!(code.get_error_int(), *number);
        assert_eq!(code.get_error_string(), *message);
    }
}

#[test]
fn raid_types_have_their_numbers_and_texts() {
    let expected = [
        (StratisRaidType::STRATIS_RAID_TYPE_UNKNOWN, "STRATIS_RAID_TYPE_UNKNOWN", 0, "Unknown"),
        (StratisRaidType::STRATIS_RAID_TYPE_SINGLE, "STRATIS_RAID_TYPE_SINGLE", 1, "Single"),
        (StratisRaidType::STRATIS_RAID_TYPE_RAID1, "STRATIS_RAID_TYPE_RAID1", 2, "Mirrored"),
        (
            StratisRaidType::STRATIS_RAID_TYPE_RAID5,
            "STRATIS_RAID_TYPE_RAID5",
            3,
            "Block-level striping with distributed parity",
        ),
        (
            StratisRaidType::STRATIS_RAID_TYPE_RAID6,
            "STRATIS_RAID_TYPE_RAID6",
            4,
            "Block-level striping with two distributed parities",
        ),
    ];
    let all = StratisRaidType::iter_variants();
    assert_eq!(all.len(), expected.len());
    for (i, (raid, label, number, message)) in expected.iter().enumerate() {
        assert_eq!(all[i], *raid);
        assert_eq!(raid.to_string(), *label);
        assert_eq!(raid.get_error_int(), *number);
        assert_eq!(raid.get_error_string(), *message);
    }
}

#[test]
fn failures_are_put_into_their_categories() {
    let own = |e: ErrorEnum| StratisError::Stratis(e);
    assert_eq!(internal_to_dbus_err(&own(ErrorEnum::Error("x".to_string()))), StratisErrorEnum::STRATIS_ERROR);
    assert_eq!(internal_to_dbus_err(&own(ErrorEnum::AlreadyExists("x".to_string()))), StratisErrorEnum::STRATIS_ERROR);
    assert_eq!(internal_to_dbus_err(&own(ErrorEnum::Busy("x".to_string()))), StratisErrorEnum::STRATIS_ERROR);
    assert_eq!(internal_to_dbus_err(&own(ErrorEnum::Invalid("x".to_string()))), StratisErrorEnum::STRATIS_ERROR);
    assert_eq!(internal_to_dbus_err(&own(ErrorEnum::NotFound("x".to_string()))), StratisErrorEnum::STRATIS_ERROR);
    assert_eq!(internal_to_dbus_err(&StratisError::Io(IoErrorKind::NotFound)), StratisErrorEnum::STRATIS_NOTFOUND);
    assert_eq!(
        internal_to_dbus_err(&StratisError::Io(IoErrorKind::AlreadyExists)),
        StratisErrorEnum::STRATIS_ALREADY_EXISTS
    );
    assert_eq!(internal_to_dbus_err(&StratisError::Io(IoErrorKind::Other)), StratisErrorEnum::STRATIS_ERROR);
    assert_eq!(internal_to_dbus_err(&StratisError::Dbus("x".to_string())), StratisErrorEnum::STRATIS_ERROR);
}

#[test]
fn a_category_ends_a_reply_with_its_number_and_text() {
    assert_eq!(code_to_message_items(StratisErrorEnum::STRATIS_OK), (MessageItem::UInt16(0), text("Ok")));
    assert_eq!(
        code_to_message_items(StratisErrorEnum::STRATIS_POOL_NOTFOUND),
        (MessageItem::UInt16(4), text("Pool not found"))
    );
}

#[test]
fn a_failure_ends_a_reply_with_its_number_and_text() {
    let general = (MessageItem::UInt16(1), text("A general error happened"));
    let own = |e: ErrorEnum| StratisError::Stratis(e);
    assert_eq!(error_to_message_items(&own(ErrorEnum::Busy("devices remaining in pool".to_string()))), general);
    assert_eq!(error_to_message_items(&own(ErrorEnum::NotFound("data".to_string()))), general);
    assert_eq!(error_to_message_items(&own(ErrorEnum::Error("no space".to_string()))), general);
    assert_eq!(error_to_message_items(&own(ErrorEnum::AlreadyExists("data".to_string()))), general);
    assert_eq!(error_to_message_items(&own(ErrorEnum::Invalid("raid level".to_string()))), general);
    assert_eq!(
        error_to_message_items(&StratisError::Io(IoErrorKind::NotFound)),
        (MessageItem::UInt16(3), text("Not found"))
    );
    assert_eq!(
        error_to_message_items(&StratisError::Io(IoErrorKind::AlreadyExists)),
        (MessageItem::UInt16(9), text("Already exists"))
    );
    assert_eq!(
        error_to_message_items(&StratisError::Io(IoErrorKind::Other)),
        (MessageItem::UInt16(1), text("A general error happened"))
    );
    assert_eq!(
        error_to_message_items(&StratisError::Dbus("no bus".to_string())),
        (MessageItem::UInt16(1), text("A general error happened"))
    );
}

#[test]
fn the_text_of_a_failure_is_the_one_it_carries() {
    assert_eq!(ErrorEnum::Error("a".to_string()).get_error_string(), "a");
    assert_eq!(ErrorEnum::AlreadyExists("b".to_string()).get_error_string(), "b");
    assert_eq!(ErrorEnum::Busy("c".to_string()).get_error_string(), "c");
    assert_eq!(ErrorEnum::Invalid("d".to_string()).get_error_string(), "d");
    assert_eq!(ErrorEnum::NotFound("e".to_string()).get_error_string(), "e");
}

#[test]
fn get_error_codes_lists_every_category() {
    let reply = get_error_codes();
    let expected = MessageItem::Array(
        vec![
            entry("STRATIS_OK", 0, "Ok"),
            entry("STRATIS_ERROR", 1, "A general error happened"),
            entry("STRATIS_NULL", 2, "Null parameter was supplied"),
            entry("STRATIS_NOTFOUND", 3, "Not found"),
            entry("STRATIS_POOL_NOTFOUND", 4, "Pool not found"),
            entry("STRATIS_VOLUME_NOTFOUND", 5, "Volume not found"),
            entry("STRATIS_DEV_NOTFOUND", 6, "Dev not found"),
            entry("STRATIS_CACHE_NOTFOUND", 7, "Cache not found"),
            entry("STRATIS_BAD_PARAM", 8, "Bad parameter"),
            entry("STRATIS_ALREADY_EXISTS", 9, "Already exists"),
            entry("STRATIS_NULL_NAME", 10, "Null name supplied"),
            entry("STRATIS_NO_POOLS", 11, "No pools"),
            entry("STRATIS_LIST_FAILURE", 12, "List operation failure."),
        ],
        "(sqs)".to_string(),
    );
    assert_eq!(reply, Ok(vec![expected]));
}

#[test]
fn get_raid_levels_lists_every_raid_type() {
    let reply = get_raid_levels();
    let expected = MessageItem::Array(
        vec![
            entry("STRATIS_RAID_TYPE_UNKNOWN", 0, "Unknown"),
            entry("STRATIS_RAID_TYPE_SINGLE", 1, "Single"),
            entry("STRATIS_RAID_TYPE_RAID1", 2, "Mirrored"),
            entry("STRATIS_RAID_TYPE_RAID5", 3, "Block-level striping with distributed parity"),
            entry("STRATIS_RAID_TYPE_RAID6", 4, "Block-level striping with two distributed parities"),
        ],
        "(sqs)".to_string(),
    );
    assert_eq!(reply, Ok(vec![expected]));
}

#[test]
fn get_list_items_keeps_the_order_given() {
    let reply = get_list_items(&vec![StratisErrorEnum::STRATIS_NO_POOLS, StratisErrorEnum::STRATIS_OK]);
    let expected = MessageItem::Array(
        vec![entry("STRATIS_NO_POOLS", 11, "No pools"), entry("STRATIS_OK", 0, "Ok")],
        "(sqs)".to_string(),
    );
    assert_eq!(reply, Ok(vec![expected]));
    let none: Vec<StratisRaidType> = Vec::new();
    assert_eq!(get_list_items(&none), Ok(vec![MessageItem::Array(Vec::new(), "(sqs)".to_string())]));
}

#[test]
fn get_dev_types_answers_nothing() {
    assert_eq!(get_dev_types(), Ok(Vec::new()));
}
