//! The shape of calls and replies: what each operation declares on the bus, and that it
//! takes and gives exactly that.

use crate::dbus_api::{
    acknowledgement, base_object, call_post, code_entries, code_entry, code_reply, lemma_paths_valid,
    create_pool_args, create_pool_done, create_pool_method, create_pool_refusal,
    destroy_pool_method, error_reply, get_cache_object_path_method, get_dev_object_path_method,
    get_dev_types_method, get_error_codes_method, get_pool_object_path_method,
    get_raid_levels_method, get_volume_object_path_method, list_pools_method, list_pools_reply,
    object_path_reply, pool_object, pool_object_path, str_items, DbusContext,
};
use crate::dbus_consts::{
    HasCodes, StratisErrorEnum, StratisRaidType, ADD_CACHE_DEVS, ADD_DEVS, CREATE_VOLUMES,
    DEFAULT_OBJECT_PATH, DESTROY_VOLUMES, LIST_CACHE_DEVS, LIST_DEVS, LIST_VOLUMES,
    REMOVE_CACHE_DEVS, REMOVE_DEVS,
};
use crate::engine::{first_owner, lemma_first_owner, Engine, Owned, PoolView};
use crate::message::{is_str_array, items_view, Item, MethodResult};
use crate::signature::{
    item_sig, items_sig, lemma_letters, lemma_sig_of_text, lemma_sig_of_text_array,
    lemma_sig_of_u16, sigs, well_typed,
};
use crate::tree::{valid_object_path, MethodView, Operation};
use crate::types::{StratisError, StratisResult};
use vstd::prelude::*;

verus! {

/// The method as which an operation is shown on the bus.
pub open spec fn operation_method(operation: Operation) -> MethodView {
    match operation {
        Operation::ListPools => list_pools_method(),
        Operation::CreatePool => create_pool_method(),
        Operation::DestroyPool => destroy_pool_method(),
        Operation::GetPoolObjectPath => get_pool_object_path_method(),
        Operation::GetVolumeObjectPath => get_volume_object_path_method(),
        Operation::GetDevObjectPath => get_dev_object_path_method(),
        Operation::GetCacheObjectPath => get_cache_object_path_method(),
        Operation::GetErrorCodes => get_error_codes_method(),
        Operation::GetRaidLevels => get_raid_levels_method(),
        Operation::GetDevTypes => get_dev_types_method(),
        Operation::CreateVolumes => MethodView::new(CREATE_VOLUMES@, operation),
        Operation::DestroyVolumes => MethodView::new(DESTROY_VOLUMES@, operation),
        Operation::ListVolumes => MethodView::new(LIST_VOLUMES@, operation),
        Operation::ListDevs => MethodView::new(LIST_DEVS@, operation),
        Operation::ListCacheDevs => MethodView::new(LIST_CACHE_DEVS@, operation),
        Operation::AddCacheDevs => MethodView::new(ADD_CACHE_DEVS@, operation),
        Operation::RemoveCacheDevs => MethodView::new(REMOVE_CACHE_DEVS@, operation),
        Operation::AddDevs => MethodView::new(ADD_DEVS@, operation),
        Operation::RemoveDevs => MethodView::new(REMOVE_DEVS@, operation),
    }
}

/// Whether the operation is one of the service's own object, not of a pool's.
pub open spec fn of_service(operation: Operation) -> bool {
    match operation {
        Operation::ListPools
        | Operation::CreatePool
        | Operation::DestroyPool
        | Operation::GetPoolObjectPath
        | Operation::GetVolumeObjectPath
        | Operation::GetDevObjectPath
        | Operation::GetCacheObjectPath
        | Operation::GetErrorCodes
        | Operation::GetRaidLevels
        | Operation::GetDevTypes => true,
        _ => false,
    }
}

/// The signatures that a method declares for the values of its reply, in their order.
pub open spec fn out_sigs(method: MethodView) -> Seq<Seq<char>> {
    Seq::new(method.out_args.len(), |i: int| method.out_args[i].1)
}

/// Whether a call brings what the method declares: as many arguments as it takes or more,
/// and as the first of them items of the declared signatures that are what they say.
pub open spec fn brings(method: MethodView, args: Seq<Item>) -> bool {
    &&& args.len() >= method.in_args.len()
    &&& forall|i: int|
        0 <= i < method.in_args.len() ==> item_sig(#[trigger] args[i]) == method.in_args[i].1
            && well_typed(args[i])
}

/// Every method on the bus is the method of the operation behind it: those of the
/// service's own object, and those of the object of any pool.
pub proof fn lemma_methods_on_bus(path: Seq<char>)
    ensures
        base_object().ifaces.len() == 1,
        base_object().ifaces[0].methods.len() == 10,
        forall|k: int|
            0 <= k < 10 ==> of_service((#[trigger] base_object().ifaces[0].methods[k]).handler)
                && base_object().ifaces[0].methods[k] == operation_method(
                base_object().ifaces[0].methods[k].handler,
            ),
        pool_object(path).ifaces.len() == 1,
        pool_object(path).ifaces[0].methods.len() == 9,
        forall|k: int|
            0 <= k < 9 ==> !of_service((#[trigger] pool_object(path).ifaces[0].methods[k]).handler)
                && pool_object(path).ifaces[0].methods[k] == operation_method(
                pool_object(path).ifaces[0].methods[k].handler,
            ),
{
}

/// A list of texts is an array of texts that is what it says, and nothing else is.
pub proof fn lemma_text_array(item: Item)
    ensures
        is_str_array(item) <==> item_sig(item) == "as"@ && well_typed(item),
{
    lemma_sig_of_text_array(item);
    if item is Array {
        let items = item->Array_0;
        assert forall|i: int| 0 <= i < items.len() implies (#[trigger] items[i] is Str
            <==> item_sig(items[i]) == "s"@) by {
            lemma_sig_of_text(items[i]);
        }
        if is_str_array(item) {
            assert forall|i: int| 0 <= i < items.len() implies item_sig(#[trigger] items[i])
                == item->Array_1 && well_typed(items[i]) by {
                assert(items[i] is Str);
            }
        }
        if item_sig(item) == "as"@ && well_typed(item) {
            assert forall|k: int| 0 <= k < items.len() implies #[trigger] items[k] is Str by {
                assert(item_sig(items[k]) == item->Array_1);
            }
        }
    }
}

/// A call is answered, and not turned away, exactly where it brings what the method of the
/// operation declares.
pub proof fn lemma_call_taken_as_declared<E: Engine>(
    operation: Operation,
    before: DbusContext<E>,
    after: DbusContext<E>,
    args: Seq<Item>,
    res: MethodResult,
)
    requires
        call_post(operation, before, after, args, res),
    ensures
        res is Ok <==> brings(operation_method(operation), args),
{
    let method = operation_method(operation);
    if args.len() > 0 {
        lemma_sig_of_text(args[0]);
    }
    if args.len() > 1 {
        lemma_sig_of_text(args[1]);
        lemma_sig_of_u16(args[1]);
    }
    if args.len() > 2 {
        lemma_text_array(args[2]);
    }
    if brings(method, args) {
        if method.in_args.len() > 0 {
            assert(item_sig(args[0]) == method.in_args[0].1);
        }
        if method.in_args.len() > 1 {
            assert(item_sig(args[1]) == method.in_args[1].1);
        }
        if method.in_args.len() > 2 {
            assert(item_sig(args[2]) == method.in_args[2].1 && well_typed(args[2]));
        }
    }
}

/// The entries of an enumeration are structs of a text, a number and a text, and are what
/// they say.
pub proof fn lemma_code_entries<T: HasCodes>(values: Seq<T>)
    ensures
        well_typed(Item::Array(code_entries(values), "(sqs)"@)),
        item_sig(Item::Array(code_entries(values), "(sqs)"@)) == "a(sqs)"@,
{
    lemma_letters();
    reveal_strlit("(sqs)");
    reveal_strlit("a(sqs)");
    assert("a"@ + "(sqs)"@ =~= "a(sqs)"@);
    assert forall|i: int| 0 <= i < code_entries(values).len() implies item_sig(
        #[trigger] code_entries(values)[i],
    ) == "(sqs)"@ && well_typed(code_entries(values)[i]) by {
        let entry = code_entries(values)[i];
        assert(entry == code_entry(values[i]));
        let fields = entry->Struct_0;
        assert(fields.len() == 3);
        assert(item_sig(fields[0]) == "s"@);
        assert(item_sig(fields[1]) == "q"@);
        assert(item_sig(fields[2]) == "s"@);
        assert(items_sig(fields, 0) =~= Seq::<char>::empty());
        assert(items_sig(fields, 1) =~= seq!['s']);
        assert(items_sig(fields, 2) =~= seq!['s', 'q']);
        assert(items_sig(fields, 3) =~= seq!['s', 'q', 's']);
        assert("("@ + items_sig(fields, 3) + ")"@ =~= "(sqs)"@);
        assert forall|k: int| 0 <= k < fields.len() implies well_typed(#[trigger] fields[k]) by {
        }
    }
}

/// The two items that end a reply are a 16-bit number and a text.
proof fn lemma_reply_end(code: StratisErrorEnum, err: StratisError)
    ensures
        sigs(code_reply(code)) == seq!["q"@, "s"@],
        sigs(error_reply(err)) == seq!["q"@, "s"@],
        forall|i: int| 0 <= i < 2 ==> well_typed(#[trigger] code_reply(code)[i]),
        forall|i: int| 0 <= i < 2 ==> well_typed(#[trigger] error_reply(err)[i]),
{
    assert(sigs(code_reply(code)) =~= seq!["q"@, "s"@]);
    assert(sigs(error_reply(err)) =~= seq!["q"@, "s"@]);
}

/// A reply of an operation of the service's own object has the values that the method of
/// the operation declares, in their order, and each is what it says.
pub proof fn lemma_reply_as_declared<E: Engine>(
    operation: Operation,
    before: DbusContext<E>,
    after: DbusContext<E>,
    args: Seq<Item>,
    res: MethodResult,
)
    requires
        call_post(operation, before, after, args, res),
        of_service(operation),
        res is Ok,
    ensures
        sigs(items_view(res->Ok_0@)) == out_sigs(operation_method(operation)),
        forall|i: int|
            0 <= i < res->Ok_0@.len() ==> well_typed(#[trigger] items_view(res->Ok_0@)[i]),
{
    let reply = items_view(res->Ok_0@);
    let declared = out_sigs(operation_method(operation));
    let ok = StratisErrorEnum::STRATIS_OK;
    lemma_letters();
    reveal_strlit("as");
    assert("a"@ + "s"@ =~= "as"@);
    match operation {
        Operation::ListPools => {
            let outcome = choose|outcome: StratisResult<Vec<String>>|
                reply == #[trigger] list_pools_reply(before.pools.names(), outcome);
            lemma_reply_end(ok, arbitrary());
            if outcome is Err {
                lemma_reply_end(ok, outcome->Err_0);
            }
            assert(declared =~= seq!["as"@, "q"@, "s"@]);
            assert(sigs(reply) =~= declared);
            let names = str_items(before.pools.names());
            assert forall|k: int| 0 <= k < names.len() implies item_sig(#[trigger] names[k])
                == "s"@ && well_typed(names[k]) by {
            }
            assert(well_typed(reply[0]));
            assert(well_typed(reply[1]));
            assert(well_typed(reply[2]));
        },
        Operation::CreatePool => {
            let (name, raid_level, devs) = create_pool_args(args)->Ok_0;
            assert(declared =~= seq!["o"@, "q"@, "s"@]);
            lemma_reply_end(ok, arbitrary());
            lemma_reply_end(StratisErrorEnum::STRATIS_ALREADY_EXISTS, arbitrary());
            lemma_reply_end(StratisErrorEnum::STRATIS_ERROR, arbitrary());
            match create_pool_refusal(before, name) {
                Some(refusal) => {
                    assert(reply == refusal);
                    assert(sigs(reply) =~= declared);
                },
                None => {
                    let outcome = choose|outcome: StratisResult<()>|
                        create_pool_done(before, after, reply, name, devs, outcome);
                    if outcome is Err {
                        lemma_reply_end(ok, outcome->Err_0);
                    }
                    assert(sigs(reply) =~= declared);
                },
            }
            assert(well_typed(reply[0]));
            assert(well_typed(reply[1]));
            assert(well_typed(reply[2]));
        },
        Operation::DestroyPool => {
            assert(declared =~= seq!["q"@, "s"@]);
            lemma_reply_end(ok, arbitrary());
            assert(sigs(reply) =~= declared);
            assert(well_typed(reply[0]));
            assert(well_typed(reply[1]));
        },
        Operation::GetPoolObjectPath
        | Operation::GetVolumeObjectPath
        | Operation::GetDevObjectPath
        | Operation::GetCacheObjectPath => {
            assert(declared =~= seq!["o"@, "q"@, "s"@]);
            lemma_object_path_reply(reply);
        },
        Operation::GetErrorCodes => {
            lemma_code_entries(StratisErrorEnum::variants());
            assert(declared =~= seq!["a(sqs)"@]);
            assert(sigs(reply) =~= declared);
            assert(well_typed(reply[0]));
        },
        Operation::GetRaidLevels => {
            lemma_code_entries(StratisRaidType::variants());
            assert(declared =~= seq!["a(sqs)"@]);
            assert(sigs(reply) =~= declared);
            assert(well_typed(reply[0]));
        },
        _ => {
            assert(declared =~= Seq::<Seq<char>>::empty());
            assert(sigs(reply) =~= declared);
        },
    }
}

/// A reply that names the object of a pool, or says that there is none, is a path, a
/// 16-bit number and a text.
proof fn lemma_object_path_reply(reply: Seq<Item>)
    requires
        exists|found: Option<PoolView>, missing: StratisErrorEnum|
            reply == #[trigger] object_path_reply(found, missing),
    ensures
        sigs(reply) == seq!["o"@, "q"@, "s"@],
        forall|i: int| 0 <= i < reply.len() ==> well_typed(#[trigger] reply[i]),
{
    let (found, missing) = choose|found: Option<PoolView>, missing: StratisErrorEnum|
        reply == #[trigger] object_path_reply(found, missing);
    lemma_reply_end(missing, arbitrary());
    lemma_reply_end(StratisErrorEnum::STRATIS_OK, arbitrary());
    assert(sigs(reply) =~= seq!["o"@, "q"@, "s"@]);
    assert(well_typed(reply[0]));
    assert(well_typed(reply[1]));
    assert(well_typed(reply[2]));
}

/// The acknowledgement of an operation of a pool's object is a text, a 32-bit number and a
/// text, and each is what it says.
pub proof fn lemma_acknowledgement()
    ensures
        sigs(acknowledgement()) == seq!["s"@, "i"@, "s"@],
        forall|i: int| 0 <= i < 3 ==> well_typed(#[trigger] acknowledgement()[i]),
{
    assert(sigs(acknowledgement()) =~= seq!["s"@, "i"@, "s"@]);
}

/// Whether every path that the items name is one that the bus takes.
pub open spec fn names_valid_paths(items: Seq<Item>) -> bool {
    forall|i: int|
        0 <= i < items.len() ==> (#[trigger] items[i] matches Item::ObjectPath(named)
            ==> valid_object_path(named))
}

/// In a reply that begins with a path and ends with a number and a text, the path that
/// begins it is the only one.
proof fn lemma_path_first(reply: Seq<Item>, path: Seq<char>, end: Seq<Item>)
    requires
        reply == seq![Item::ObjectPath(path)] + end,
        end.len() == 2,
        end[0] is UInt16,
        end[1] is Str,
        valid_object_path(path),
    ensures
        names_valid_paths(reply),
{
    assert(reply[0] == Item::ObjectPath(path));
    assert(reply[1] == end[0]);
    assert(reply[2] == end[1]);
}

/// Every path that a reply names is one that the bus takes.
pub proof fn lemma_reply_paths_valid<E: Engine>(
    operation: Operation,
    before: DbusContext<E>,
    after: DbusContext<E>,
    args: Seq<Item>,
    res: MethodResult,
)
    requires
        before.wf(),
        call_post(operation, before, after, args, res),
        res is Ok,
    ensures
        names_valid_paths(items_view(res->Ok_0@)),
{
    let reply = items_view(res->Ok_0@);
    let ok = code_reply(StratisErrorEnum::STRATIS_OK);
    lemma_paths_valid(0);
    match operation {
        Operation::ListPools => {
            let outcome = choose|outcome: StratisResult<Vec<String>>|
                reply == #[trigger] list_pools_reply(before.pools.names(), outcome);
            assert(reply[0] is Array);
            assert(reply[1] is UInt16);
            assert(reply[2] is Str);
        },
        Operation::CreatePool => {
            let (name, raid_level, devs) = create_pool_args(args)->Ok_0;
            if before.pools@.contains_key(name) {
                lemma_path_first(
                    reply,
                    DEFAULT_OBJECT_PATH@,
                    code_reply(StratisErrorEnum::STRATIS_ALREADY_EXISTS),
                );
            } else if before.next_index == u64::MAX {
                lemma_path_first(
                    reply,
                    DEFAULT_OBJECT_PATH@,
                    code_reply(StratisErrorEnum::STRATIS_ERROR),
                );
            } else {
                let outcome = choose|outcome: StratisResult<()>|
                    create_pool_done(before, after, reply, name, devs, outcome);
                let path = pool_object_path((before.next_index + 1) as nat);
                lemma_paths_valid((before.next_index + 1) as nat);
                match outcome {
                    Ok(_) => lemma_path_first(reply, path, ok),
                    Err(err) => lemma_path_first(reply, DEFAULT_OBJECT_PATH@, error_reply(err)),
                }
            }
        },
        Operation::DestroyPool => {
            assert(reply[0] is UInt16);
            assert(reply[1] is Str);
        },
        Operation::GetPoolObjectPath => {
            let name = args[0]->Str_0;
            if before.pools@.contains_key(name) {
                lemma_path_first(reply, before.pools@[name].object_path, ok);
            } else {
                lemma_path_first(
                    reply,
                    DEFAULT_OBJECT_PATH@,
                    code_reply(StratisErrorEnum::STRATIS_POOL_NOTFOUND),
                );
            }
        },
        Operation::GetVolumeObjectPath => {
            let name = args[0]->Str_0;
            if !before.pools@.contains_key(name) {
                lemma_path_first(
                    reply,
                    DEFAULT_OBJECT_PATH@,
                    code_reply(StratisErrorEnum::STRATIS_POOL_NOTFOUND),
                );
            } else if !before.pools@[name].filesystems.contains(args[1]->Str_0) {
                lemma_path_first(
                    reply,
                    DEFAULT_OBJECT_PATH@,
                    code_reply(StratisErrorEnum::STRATIS_VOLUME_NOTFOUND),
                );
            } else {
                lemma_path_first(reply, before.pools@[name].object_path, ok);
            }
        },
        Operation::GetDevObjectPath => {
            lemma_first_owner(before.pools.names(), before.pools@, Owned::BlockDev, args[0]->Str_0);
            match first_owner(before.pools.names(), before.pools@, Owned::BlockDev, args[0]->Str_0) {
                Some(name) => lemma_path_first(reply, before.pools@[name].object_path, ok),
                None => lemma_path_first(
                    reply,
                    DEFAULT_OBJECT_PATH@,
                    code_reply(StratisErrorEnum::STRATIS_DEV_NOTFOUND),
                ),
            }
        },
        Operation::GetCacheObjectPath => {
            lemma_first_owner(before.pools.names(), before.pools@, Owned::CacheDev, args[0]->Str_0);
            match first_owner(before.pools.names(), before.pools@, Owned::CacheDev, args[0]->Str_0) {
                Some(name) => lemma_path_first(reply, before.pools@[name].object_path, ok),
                None => lemma_path_first(
                    reply,
                    DEFAULT_OBJECT_PATH@,
                    code_reply(StratisErrorEnum::STRATIS_CACHE_NOTFOUND),
                ),
            }
        },
        Operation::GetErrorCodes | Operation::GetRaidLevels => {
            assert(reply[0] is Array);
        },
        Operation::GetDevTypes => {},
        _ => {
            assert(reply[0] is Str);
            assert(reply[1] is Int32);
            assert(reply[2] is Str);
        },
    }
}

} // verus!
