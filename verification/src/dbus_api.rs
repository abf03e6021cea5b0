//! The operations that the daemon answers on the bus, and the state behind them.

use crate::dbus_consts::{
    HasCodes, StratisErrorEnum, StratisRaidType, ADD_CACHE_DEVS, ADD_DEVS, CREATE_POOL,
    CREATE_VOLUMES, DEFAULT_OBJECT_PATH, DESTROY_POOL, DESTROY_VOLUMES, GET_CACHE_OBJECT_PATH,
    GET_DEV_OBJECT_PATH, GET_DEV_TYPES, GET_ERROR_CODES, GET_POOL_OBJECT_PATH, GET_RAID_LEVELS,
    GET_VOLUME_OBJECT_PATH, LIST_CACHE_DEVS, LIST_DEVS, LIST_POOLS, LIST_VOLUMES,
    REMOVE_CACHE_DEVS, REMOVE_DEVS, STRATIS_BASE_PATH, STRATIS_MANAGER_INTERFACE,
};
use crate::decimal::{
    decimal, lemma_decimal_digits, lemma_decimal_injective, lemma_decimal_len, push_decimal,
};
use crate::engine::{
    busy_reason, first_owner, pool_named, Engine, Owned, Pool, PoolView, Pools,
};
use crate::message::{
    arg_str, arg_str_array, arg_u16, items_view, lemma_view_array, lemma_view_struct, read_str,
    read_str_array, read_u16, Item, MessageItem, MethodErr, MethodResult,
};
use crate::names::strings_view;
use crate::tree::{
    has_object, object_at, valid_object_path, valid_paths, Interface, InterfaceView, Method,
    MethodView, ObjectPath, ObjectPathView, Operation, Tree,
};
use crate::types::{ErrorEnum, IoErrorKind, StratisError, StratisResult};
use vstd::prelude::*;
use vstd::string::StringExecFns;

verus! {

/// The path of the object of the pool that was given the identifier `id`: the base path,
/// a slash, and the identifier in decimal digits.
pub open spec fn pool_object_path(id: nat) -> Seq<char> {
    STRATIS_BASE_PATH@ + "/"@ + decimal(id)
}

/// Pools with different identifiers have objects at different paths.
pub proof fn lemma_pool_object_path_injective(a: nat, b: nat)
    requires
        pool_object_path(a) == pool_object_path(b),
    ensures
        a == b,
{
    let prefix = STRATIS_BASE_PATH@ + "/"@;
    assert(pool_object_path(a).skip(prefix.len() as int) =~= decimal(a));
    assert(pool_object_path(b).skip(prefix.len() as int) =~= decimal(b));
    lemma_decimal_injective(a, b);
}

/// No pool has its object at the path of the service's own object.
pub proof fn lemma_pool_object_path_not_base(id: nat)
    ensures
        pool_object_path(id) != STRATIS_BASE_PATH@,
{
    lemma_decimal_len(id);
    assert(pool_object_path(id).len() == STRATIS_BASE_PATH@.len() + "/"@.len() + decimal(id).len());
}

/// No pool has its object at the default path.
pub proof fn lemma_pool_object_path_not_default(id: nat)
    ensures
        pool_object_path(id) != DEFAULT_OBJECT_PATH@,
{
    reveal_strlit("/");
    lemma_decimal_len(id);
    assert(pool_object_path(id).len() == STRATIS_BASE_PATH@.len() + "/"@.len() + decimal(id).len());
}

/// The bus takes the path of the service's own object, the default path, and the path of
/// the object of any pool.
pub proof fn lemma_paths_valid(id: nat)
    ensures
        valid_object_path(STRATIS_BASE_PATH@),
        valid_object_path(DEFAULT_OBJECT_PATH@),
        valid_object_path(pool_object_path(id)),
{
    reveal_strlit("/base");
    reveal_strlit("/");
    lemma_decimal_len(id);
    lemma_decimal_digits(id);
    let base = STRATIS_BASE_PATH@;
    let path = pool_object_path(id);
    assert(base =~= seq!['/', 'b', 'a', 's', 'e']);
    assert(path.len() == 6 + decimal(id).len());
    assert forall|i: int| 0 <= i < path.len() implies (if i < 5 {
        path[i] == base[i]
    } else if i == 5 {
        path[i] == '/'
    } else {
        path[i] == decimal(id)[i - 6]
    }) by {
    }
    assert(path[0] == base[0]);
    assert(path[path.len() - 1] == decimal(id)[decimal(id).len() - 1]);
    assert forall|i: int| 0 < i < path.len() implies !(path[i - 1] == '/' && #[trigger] path[i]
        == '/') by {
        if i >= 6 {
            assert(path[i] == decimal(id)[i - 6]);
        } else if i == 5 {
            assert(path[4] == base[4]);
        } else {
            assert(path[i] == base[i]);
        }
    }
}

/// The object of a pool: it lies at `path`, describes itself, and has under the manager
/// interface the nine methods that act on the pool, in this order.
pub open spec fn pool_object(path: Seq<char>) -> ObjectPathView {
    ObjectPathView::new(path).introspectable().add(
        InterfaceView::new(STRATIS_MANAGER_INTERFACE@).add_m(
            MethodView::new(CREATE_VOLUMES@, Operation::CreateVolumes),
        ).add_m(MethodView::new(DESTROY_VOLUMES@, Operation::DestroyVolumes)).add_m(
            MethodView::new(LIST_VOLUMES@, Operation::ListVolumes),
        ).add_m(MethodView::new(LIST_DEVS@, Operation::ListDevs)).add_m(
            MethodView::new(LIST_CACHE_DEVS@, Operation::ListCacheDevs),
        ).add_m(MethodView::new(ADD_CACHE_DEVS@, Operation::AddCacheDevs)).add_m(
            MethodView::new(REMOVE_CACHE_DEVS@, Operation::RemoveCacheDevs),
        ).add_m(MethodView::new(ADD_DEVS@, Operation::AddDevs)).add_m(
            MethodView::new(REMOVE_DEVS@, Operation::RemoveDevs),
        ),
    )
}

/// The state of the service: the identifier that was given out last, the registry of pools,
/// the objects on the bus, and the engine.
pub struct DbusContext<E: Engine> {
    pub next_index: u64,
    pub pools: Pools,
    pub tree: Tree,
    pub engine: E,
}

impl<E: Engine> DbusContext<E> {
    /// The registry and the objects are in order, every object and every pool lies at a
    /// path that the bus takes, and no object lies at the path of an identifier that has
    /// not been given out.
    pub open spec fn wf(&self) -> bool {
        &&& self.pools.wf()
        &&& self.tree.wf()
        &&& valid_paths(self.tree@)
        &&& forall|name: Seq<char>| #[trigger]
            self.pools@.contains_key(name) ==> valid_object_path(self.pools@[name].object_path)
        &&& forall|id: nat|
            id > self.next_index ==> !has_object(self.tree@, #[trigger] pool_object_path(id))
    }

    /// The state at startup: no identifier given out, no pool, and on the bus the service's
    /// own object alone.
    pub fn new(engine: E) -> (dbus_context: DbusContext<E>)
        ensures
            dbus_context.wf(),
            dbus_context.next_index == 0,
            dbus_context.pools@ == Map::<Seq<char>, PoolView>::empty(),
            dbus_context.pools.names() == Seq::<Seq<char>>::empty(),
            dbus_context.tree@ == seq![base_object()],
            dbus_context.engine == engine,
    {
        let dbus_context = DbusContext {
            next_index: 0,
            pools: Pools::new(),
            tree: get_base_tree(),
            engine,
        };
        proof {
            lemma_paths_valid(0);
            assert forall|id: nat| id > 0 implies !has_object(
                dbus_context.tree@,
                #[trigger] pool_object_path(id),
            ) by {
                lemma_pool_object_path_not_base(id);
            }
        }
        dbus_context
    }

    /// Gives out the next identifier: one more than the last, so that it is above every
    /// identifier given out before.
    pub fn get_next_id(&mut self) -> (id: u64)
        requires
            old(self).next_index < u64::MAX,
        ensures
            id == old(self).next_index + 1,
            id > old(self).next_index,
            final(self).next_index == id,
            final(self).pools == old(self).pools,
            final(self).tree == old(self).tree,
            final(self).engine == old(self).engine,
            old(self).wf() ==> final(self).wf(),
    {
        self.next_index += 1;
        self.next_index
    }
}

/// The identifiers that `count` calls of `get_next_id` give out, one after the other, when
/// `last` was given out before them.
pub open spec fn identifiers(last: nat, count: nat) -> Seq<nat>
    decreases count,
{
    if count == 0 {
        Seq::empty()
    } else {
        seq![last + 1] + identifiers(last + 1, (count - 1) as nat)
    }
}

/// Identifiers only grow: each one given out is above the one given out before the calls
/// began and above every one that an earlier call gave out.
pub proof fn lemma_identifiers_increase(last: nat, count: nat)
    ensures
        identifiers(last, count).len() == count,
        forall|i: int| 0 <= i < count ==> last < #[trigger] identifiers(last, count)[i],
        forall|i: int, j: int|
            0 <= i < j < count ==> #[trigger] identifiers(last, count)[i] < #[trigger] identifiers(
                last,
                count,
            )[j],
    decreases count,
{
    if count > 0 {
        let rest = identifiers(last + 1, (count - 1) as nat);
        lemma_identifiers_increase(last + 1, (count - 1) as nat);
        let all = identifiers(last, count);
        assert forall|i: int| 0 <= i < count implies last < #[trigger] all[i] by {
            if i > 0 {
                assert(all[i] == rest[i - 1]);
            }
        }
        assert forall|i: int, j: int| 0 <= i < j < count implies #[trigger] all[i] < #[trigger] all[j] by {
            assert(all[j] == rest[j - 1]);
            if i > 0 {
                assert(all[i] == rest[i - 1]);
            }
        }
    }
}

/// The path that stands in a reply where there is no object to name.
pub fn default_object_path() -> (path: String)
    ensures
        path@ == DEFAULT_OBJECT_PATH@,
{
    DEFAULT_OBJECT_PATH.to_owned()
}

/// Gives the next pool its place on the bus: takes the next identifier, and adds at the
/// path of that identifier an object with the methods that act on a pool. Answers the path.
pub fn create_dbus_pool<E: Engine>(dbus_context: &mut DbusContext<E>) -> (path: String)
    requires
        old(dbus_context).wf(),
        old(dbus_context).next_index < u64::MAX,
    ensures
        final(dbus_context).wf(),
        final(dbus_context).next_index == old(dbus_context).next_index + 1,
        path@ == pool_object_path(final(dbus_context).next_index as nat),
        !has_object(old(dbus_context).tree@, path@),
        final(dbus_context).tree@ == old(dbus_context).tree@.push(pool_object(path@)),
        object_at(final(dbus_context).tree@, path@) == Some(pool_object(path@)),
        final(dbus_context).pools == old(dbus_context).pools,
        final(dbus_context).engine == old(dbus_context).engine,
{
    let create_volumes_method = Method::new(CREATE_VOLUMES, Operation::CreateVolumes);

    let destroy_volumes_method = Method::new(DESTROY_VOLUMES, Operation::DestroyVolumes);

    let list_volumes_method = Method::new(LIST_VOLUMES, Operation::ListVolumes);

    let list_devs_method = Method::new(LIST_DEVS, Operation::ListDevs);

    let list_cache_devs_method = Method::new(LIST_CACHE_DEVS, Operation::ListCacheDevs);

    let add_cache_devs_method = Method::new(ADD_CACHE_DEVS, Operation::AddCacheDevs);

    let remove_cache_devs_method = Method::new(REMOVE_CACHE_DEVS, Operation::RemoveCacheDevs);

    let add_devs_method = Method::new(ADD_DEVS, Operation::AddDevs);

    let remove_devs_method = Method::new(REMOVE_DEVS, Operation::RemoveDevs);

    let id = dbus_context.get_next_id();
    let mut object_name = STRATIS_BASE_PATH.to_owned();
    object_name.append("/");
    push_decimal(&mut object_name, id);
    assert(object_name@ == pool_object_path(id as nat));
    assert(!has_object(dbus_context.tree@, pool_object_path(id as nat)));

    let object_path = ObjectPath::new(object_name).introspectable().add(
        Interface::new(STRATIS_MANAGER_INTERFACE).add_m(create_volumes_method).add_m(
            destroy_volumes_method,
        ).add_m(list_volumes_method).add_m(list_devs_method).add_m(list_cache_devs_method).add_m(
            add_cache_devs_method,
        ).add_m(remove_cache_devs_method).add_m(add_devs_method).add_m(remove_devs_method),
    );

    let path = object_path.get_name().clone();
    let ghost before = dbus_context.tree@;
    let added = dbus_context.tree.add(object_path);
    proof {
        assert(added);
        lemma_paths_valid(id as nat);
        assert forall|other: nat| other > id implies !has_object(
            dbus_context.tree@,
            #[trigger] pool_object_path(other),
        ) by {
            if has_object(dbus_context.tree@, pool_object_path(other)) {
                let i = choose|i: int|
                    0 <= i < dbus_context.tree@.len() && #[trigger] dbus_context.tree@[i].name
                        == pool_object_path(other);
                if i < before.len() {
                    assert(before[i].name == pool_object_path(other));
                } else {
                    lemma_pool_object_path_injective(other, id as nat);
                }
            }
        }
    }
    path
}

/// The outcome category under which a failure is reported. A failure of the daemon's own
/// making is reported as a general error, whatever it is; so is a failure of the bus. Of
/// the conditions of input and output the two that say that a thing is missing or is there
/// already have categories of their own.
pub open spec fn error_code(err: StratisError) -> StratisErrorEnum {
    match err {
        StratisError::Stratis(_) => StratisErrorEnum::STRATIS_ERROR,
        StratisError::Io(IoErrorKind::NotFound) => StratisErrorEnum::STRATIS_NOTFOUND,
        StratisError::Io(IoErrorKind::AlreadyExists) => StratisErrorEnum::STRATIS_ALREADY_EXISTS,
        StratisError::Io(IoErrorKind::Other) => StratisErrorEnum::STRATIS_ERROR,
        StratisError::Dbus(_) => StratisErrorEnum::STRATIS_ERROR,
    }
}

/// No failure is reported as success.
pub proof fn lemma_error_code_not_ok(err: StratisError)
    ensures
        error_code(err) != StratisErrorEnum::STRATIS_OK,
        error_code(err).error_int() != 0,
{
}

/// The outcome category under which a failure is reported.
pub fn internal_to_dbus_err(err: &StratisError) -> (code: StratisErrorEnum)
    ensures
        code == error_code(*err),
{
    match err {
        StratisError::Stratis(_) => StratisErrorEnum::STRATIS_ERROR,
        StratisError::Io(kind) => {
            match kind {
                IoErrorKind::NotFound => StratisErrorEnum::STRATIS_NOTFOUND,
                IoErrorKind::AlreadyExists => StratisErrorEnum::STRATIS_ALREADY_EXISTS,
                _ => StratisErrorEnum::STRATIS_ERROR,
            }
        },
        _ => StratisErrorEnum::STRATIS_ERROR,
    }
}

/// The two items with which an outcome category ends a reply: its number and its text.
pub fn code_to_message_items(code: StratisErrorEnum) -> (items: (MessageItem, MessageItem))
    ensures
        items.0@ == Item::UInt16(code.error_int()),
        items.1@ == Item::Str(code.error_string()),
{
    (MessageItem::UInt16(code.get_error_int()), MessageItem::Str(code.get_error_string().to_owned()))
}

/// The two items with which a failure ends a reply: the number and the text of its outcome
/// category.
pub fn error_to_message_items(err: &StratisError) -> (items: (MessageItem, MessageItem))
    ensures
        items.0@ == Item::UInt16(error_code(*err).error_int()),
        items.1@ == Item::Str(error_code(*err).error_string()),
{
    code_to_message_items(internal_to_dbus_err(err))
}

/// The method that lists the pools: it takes nothing.
pub open spec fn list_pools_method() -> MethodView {
    MethodView::new(LIST_POOLS@, Operation::ListPools).out_arg("pool_names"@, "as"@).out_arg(
        "return_code"@,
        "q"@,
    ).out_arg("return_string"@, "s"@)
}

/// The method that creates a pool from a name, a raid type and a list of devices.
pub open spec fn create_pool_method() -> MethodView {
    MethodView::new(CREATE_POOL@, Operation::CreatePool).in_arg("pool_name"@, "s"@).in_arg(
        "raid_type"@,
        "q"@,
    ).in_arg("dev_list"@, "as"@).out_arg("object_path"@, "o"@).out_arg("return_code"@, "q"@).out_arg(
        "return_string"@,
        "s"@,
    )
}

/// The method that destroys the pool of a name.
pub open spec fn destroy_pool_method() -> MethodView {
    MethodView::new(DESTROY_POOL@, Operation::DestroyPool).in_arg("pool_name"@, "s"@).out_arg(
        "return_code"@,
        "q"@,
    ).out_arg("return_string"@, "s"@)
}

/// The method that finds the object of a pool.
pub open spec fn get_pool_object_path_method() -> MethodView {
    MethodView::new(GET_POOL_OBJECT_PATH@, Operation::GetPoolObjectPath).in_arg(
        "pool_name"@,
        "s"@,
    ).out_arg("object_path"@, "o"@).out_arg("return_code"@, "q"@).out_arg("return_string"@, "s"@)
}

/// The method that finds the object of a volume of a pool.
pub open spec fn get_volume_object_path_method() -> MethodView {
    MethodView::new(GET_VOLUME_OBJECT_PATH@, Operation::GetVolumeObjectPath).in_arg(
        "pool_name"@,
        "s"@,
    ).in_arg("volume_name"@, "s"@).out_arg("object_path"@, "o"@).out_arg(
        "return_code"@,
        "q"@,
    ).out_arg("return_string"@, "s"@)
}

/// The method that finds the object of a device.
pub open spec fn get_dev_object_path_method() -> MethodView {
    MethodView::new(GET_DEV_OBJECT_PATH@, Operation::GetDevObjectPath).in_arg(
        "dev_name"@,
        "s"@,
    ).out_arg("object_path"@, "o"@).out_arg("return_code"@, "q"@).out_arg("return_string"@, "s"@)
}

/// The method that finds the object of a cache device.
pub open spec fn get_cache_object_path_method() -> MethodView {
    MethodView::new(GET_CACHE_OBJECT_PATH@, Operation::GetCacheObjectPath).in_arg(
        "cache_dev_name"@,
        "s"@,
    ).out_arg("object_path"@, "o"@).out_arg("return_code"@, "q"@).out_arg("return_string"@, "s"@)
}

/// The method that lists the outcome categories.
pub open spec fn get_error_codes_method() -> MethodView {
    MethodView::new(GET_ERROR_CODES@, Operation::GetErrorCodes).out_arg("error_codes"@, "a(sqs)"@)
}

/// The method that lists the raid types.
pub open spec fn get_raid_levels_method() -> MethodView {
    MethodView::new(GET_RAID_LEVELS@, Operation::GetRaidLevels).out_arg("error_codes"@, "a(sqs)"@)
}

/// The method that lists the device types.
pub open spec fn get_dev_types_method() -> MethodView {
    MethodView::new(GET_DEV_TYPES@, Operation::GetDevTypes)
}

/// The object of the service itself: it lies at the base path, describes itself, and has
/// under the manager interface the ten methods of the service, in this order.
pub open spec fn base_object() -> ObjectPathView {
    ObjectPathView::new(STRATIS_BASE_PATH@).introspectable().add(
        InterfaceView::new(STRATIS_MANAGER_INTERFACE@).add_m(list_pools_method()).add_m(
            create_pool_method(),
        ).add_m(destroy_pool_method()).add_m(get_pool_object_path_method()).add_m(
            get_volume_object_path_method(),
        ).add_m(get_dev_object_path_method()).add_m(get_cache_object_path_method()).add_m(
            get_error_codes_method(),
        ).add_m(get_raid_levels_method()).add_m(get_dev_types_method()),
    )
}

/// The objects that the service shows before any pool exists: its own object and no other.
pub fn get_base_tree() -> (base_tree: Tree)
    ensures
        base_tree@ == seq![base_object()],
        base_tree.wf(),
{
    let createpool_method = Method::new(CREATE_POOL, Operation::CreatePool).in_arg(
        "pool_name",
        "s",
    ).in_arg("raid_type", "q").in_arg("dev_list", "as").out_arg("object_path", "o").out_arg(
        "return_code",
        "q",
    ).out_arg("return_string", "s");

    let destroypool_method = Method::new(DESTROY_POOL, Operation::DestroyPool).in_arg(
        "pool_name",
        "s",
    ).out_arg("return_code", "q").out_arg("return_string", "s");

    let listpools_method = Method::new(LIST_POOLS, Operation::ListPools).out_arg(
        "pool_names",
        "as",
    ).out_arg("return_code", "q").out_arg("return_string", "s");

    let getpoolobjectpath_method = Method::new(
        GET_POOL_OBJECT_PATH,
        Operation::GetPoolObjectPath,
    ).in_arg("pool_name", "s").out_arg("object_path", "o").out_arg("return_code", "q").out_arg(
        "return_string",
        "s",
    );

    let getvolumeobjectpath_method = Method::new(
        GET_VOLUME_OBJECT_PATH,
        Operation::GetVolumeObjectPath,
    ).in_arg("pool_name", "s").in_arg("volume_name", "s").out_arg("object_path", "o").out_arg(
        "return_code",
        "q",
    ).out_arg("return_string", "s");

    let getdevobjectpath_method = Method::new(
        GET_DEV_OBJECT_PATH,
        Operation::GetDevObjectPath,
    ).in_arg("dev_name", "s").out_arg("object_path", "o").out_arg("return_code", "q").out_arg(
        "return_string",
        "s",
    );

    let getcacheobjectpath_method = Method::new(
        GET_CACHE_OBJECT_PATH,
        Operation::GetCacheObjectPath,
    ).in_arg("cache_dev_name", "s").out_arg("object_path", "o").out_arg("return_code", "q").out_arg(
        "return_string",
        "s",
    );

    let geterrorcodes_method = Method::new(GET_ERROR_CODES, Operation::GetErrorCodes).out_arg(
        "error_codes",
        "a(sqs)",
    );

    let getraidlevels_method = Method::new(GET_RAID_LEVELS, Operation::GetRaidLevels).out_arg(
        "error_codes",
        "a(sqs)",
    );

    let getdevtypes_method = Method::new(GET_DEV_TYPES, Operation::GetDevTypes);

    let obj_path = ObjectPath::new(STRATIS_BASE_PATH.to_owned()).introspectable().add(
        Interface::new(STRATIS_MANAGER_INTERFACE).add_m(listpools_method).add_m(
            createpool_method,
        ).add_m(destroypool_method).add_m(getpoolobjectpath_method).add_m(
            getvolumeobjectpath_method,
        ).add_m(getdevobjectpath_method).add_m(getcacheobjectpath_method).add_m(
            geterrorcodes_method,
        ).add_m(getraidlevels_method).add_m(getdevtypes_method),
    );

    let mut base_tree = Tree::new();
    base_tree.add(obj_path);
    assert(base_tree@ =~= seq![base_object()]);
    base_tree
}

/// The two items that end the reply of an operation that went well or ended in an outcome
/// category of the service's own choosing.
pub open spec fn code_reply(code: StratisErrorEnum) -> Seq<Item> {
    seq![Item::UInt16(code.error_int()), Item::Str(code.error_string())]
}

/// The two items that end the reply of an operation that failed: the number and the text
/// of the outcome category of the failure.
pub open spec fn error_reply(err: StratisError) -> Seq<Item> {
    code_reply(error_code(err))
}

/// The texts as items.
pub open spec fn str_items(texts: Seq<Seq<char>>) -> Seq<Item> {
    Seq::new(texts.len(), |i: int| Item::Str(texts[i]))
}

/// What a call of `CreatePool` must bring: a name, a raid type and a list of devices. The
/// arguments are read from the left, and the first that is missing or of the wrong type
/// decides how the call is turned away.
pub open spec fn create_pool_args(args: Seq<Item>) -> Result<
    (Seq<char>, u16, Seq<Seq<char>>),
    MethodErr,
> {
    match arg_str(args, 0) {
        Err(e) => Err(e),
        Ok(name) => match arg_u16(args, 1) {
            Err(e) => Err(e),
            Ok(raid_level) => match arg_str_array(args, 2) {
                Err(e) => Err(e),
                Ok(devs) => Ok((name, raid_level, devs)),
            },
        },
    }
}

/// The reply of `CreatePool` to a name under which a pool stands already: the default path
/// and the category that says so.
pub open spec fn create_pool_conflict() -> Seq<Item> {
    seq![Item::ObjectPath(DEFAULT_OBJECT_PATH@)] + code_reply(
        StratisErrorEnum::STRATIS_ALREADY_EXISTS,
    )
}

/// The reply of `CreatePool` where every identifier has been given out: the default path
/// and a general error.
pub open spec fn create_pool_exhausted() -> Seq<Item> {
    seq![Item::ObjectPath(DEFAULT_OBJECT_PATH@)] + code_reply(StratisErrorEnum::STRATIS_ERROR)
}

/// The reply with which `CreatePool` refuses a name before the engine is asked, if it
/// does: a name under which a pool stands already is refused as a conflict, and any name is
/// refused once every identifier has been given out.
pub open spec fn create_pool_refusal<E: Engine>(before: DbusContext<E>, name: Seq<char>) -> Option<
    Seq<Item>,
> {
    if before.pools@.contains_key(name) {
        Some(create_pool_conflict())
    } else if before.next_index == u64::MAX {
        Some(create_pool_exhausted())
    } else {
        None
    }
}

/// Whether nothing but the engine has changed.
pub open spec fn state_kept<E: Engine>(before: DbusContext<E>, after: DbusContext<E>) -> bool {
    &&& after.next_index == before.next_index
    &&& after.tree == before.tree
    &&& after.pools == before.pools
}

/// What holds where `CreatePool` has made a pool: the next identifier is taken, the pool's
/// object stands at the path of that identifier, where no object stood before, the pool is
/// in the registry under its name, owning the devices and nothing else, and the reply names
/// the path and reports success.
pub open spec fn pool_made<E: Engine>(
    before: DbusContext<E>,
    after: DbusContext<E>,
    reply: Seq<Item>,
    name: Seq<char>,
    devs: Seq<Seq<char>>,
) -> bool {
    let path = pool_object_path((before.next_index + 1) as nat);
    &&& after.next_index == before.next_index + 1
    &&& !has_object(before.tree@, path)
    &&& after.tree@ == before.tree@.push(pool_object(path))
    &&& object_at(after.tree@, path) == Some(pool_object(path))
    &&& after.pools@ == before.pools@.insert(name, Pool::spec_new(path, devs))
    &&& reply == seq![Item::ObjectPath(path)] + code_reply(StratisErrorEnum::STRATIS_OK)
}

/// What holds once `CreatePool` is done, given what the engine said. Where the engine
/// failed, nothing has changed and the reply names the default path and the failure. Where
/// the engine made the pool but the name is refused, nothing has changed and the reply is
/// the refusal. Otherwise the pool is made.
pub open spec fn create_pool_done<E: Engine>(
    before: DbusContext<E>,
    after: DbusContext<E>,
    reply: Seq<Item>,
    name: Seq<char>,
    devs: Seq<Seq<char>>,
    outcome: StratisResult<()>,
) -> bool {
    match outcome {
        Err(err) => state_kept(before, after) && reply == seq![
            Item::ObjectPath(DEFAULT_OBJECT_PATH@),
        ] + error_reply(err),
        Ok(_) => match create_pool_refusal(before, name) {
            Some(refusal) => state_kept(before, after) && reply == refusal,
            None => pool_made(before, after, reply, name, devs),
        },
    }
}

/// Builds the reply that names the default path and ends with an outcome category.
fn reply_default_path(code: StratisErrorEnum) -> (reply: Vec<MessageItem>)
    ensures
        items_view(reply@) == seq![Item::ObjectPath(DEFAULT_OBJECT_PATH@)] + code_reply(code),
{
    let (rc, rs) = code_to_message_items(code);
    let mut reply: Vec<MessageItem> = Vec::new();
    reply.push(MessageItem::ObjectPath(default_object_path()));
    reply.push(rc);
    reply.push(rs);
    assert(items_view(reply@) =~= seq![Item::ObjectPath(DEFAULT_OBJECT_PATH@)] + code_reply(code));
    reply
}

/// Refuses a name for a new pool, if it is to be refused.
fn refuse_create_pool<E: Engine>(dbus_context: &DbusContext<E>, name: &str) -> (refusal: Option<
    Vec<MessageItem>,
>)
    requires
        dbus_context.wf(),
    ensures
        match create_pool_refusal(*dbus_context, name@) {
            Some(reply) => refusal matches Some(built) && items_view(built@) == reply,
            None => refusal is None,
        },
{
    if dbus_context.pools.contains_key(name) {
        Some(reply_default_path(StratisErrorEnum::STRATIS_ALREADY_EXISTS))
    } else if dbus_context.next_index == u64::MAX {
        Some(reply_default_path(StratisErrorEnum::STRATIS_ERROR))
    } else {
        None
    }
}

/// Ends `CreatePool` once the engine has answered.
pub fn finish_create_pool<E: Engine>(
    dbus_context: &mut DbusContext<E>,
    name: String,
    devs: Vec<String>,
    outcome: StratisResult<()>,
) -> (reply: Vec<MessageItem>)
    requires
        old(dbus_context).wf(),
    ensures
        final(dbus_context).wf(),
        final(dbus_context).engine == old(dbus_context).engine,
        create_pool_done(
            *old(dbus_context),
            *final(dbus_context),
            items_view(reply@),
            name@,
            strings_view(devs@),
            outcome,
        ),
{
    match outcome {
        Ok(_) => {
            match refuse_create_pool(dbus_context, name.as_str()) {
                Some(refusal) => refusal,
                None => {
                    let object_path = create_dbus_pool(dbus_context);
                    let pool = Pool::new(object_path.clone(), devs);
                    proof {
                        lemma_paths_valid(dbus_context.next_index as nat);
                    }
                    dbus_context.pools.insert(name, pool);
                    let (rc, rs) = code_to_message_items(StratisErrorEnum::STRATIS_OK);
                    let mut reply: Vec<MessageItem> = Vec::new();
                    reply.push(MessageItem::ObjectPath(object_path));
                    reply.push(rc);
                    reply.push(rs);
                    proof {
                        let path = pool_object_path((old(dbus_context).next_index + 1) as nat);
                        assert(items_view(reply@) =~= seq![Item::ObjectPath(path)] + code_reply(
                            StratisErrorEnum::STRATIS_OK,
                        ));
                    }
                    reply
                },
            }
        },
        Err(x) => {
            let (rc, rs) = error_to_message_items(&x);
            let mut reply: Vec<MessageItem> = Vec::new();
            reply.push(MessageItem::ObjectPath(default_object_path()));
            reply.push(rc);
            reply.push(rs);
            proof {
                assert(items_view(reply@) =~= seq![Item::ObjectPath(DEFAULT_OBJECT_PATH@)]
                    + error_reply(x));
            }
            reply
        },
    }
}

/// What holds once a call of `CreatePool` is answered. A call whose arguments are not a
/// name, a raid type and a list of devices is turned away and nothing has changed. A call
/// for a name that is refused is answered with the refusal, and nothing has changed, the
/// engine included: it is not asked. Any other call has a reply, and for something that
/// the engine can have said the state and the reply are as `create_pool_done` has them.
pub open spec fn create_pool_post<E: Engine>(
    before: DbusContext<E>,
    after: DbusContext<E>,
    args: Seq<Item>,
    res: MethodResult,
) -> bool {
    match create_pool_args(args) {
        Err(e) => res == Err::<Vec<MessageItem>, MethodErr>(e) && after == before,
        Ok((name, raid_level, devs)) => match create_pool_refusal(before, name) {
            Some(refusal) => after == before && (res matches Ok(reply) && items_view(reply@)
                == refusal),
            None => res is Ok && exists|outcome: StratisResult<()>|
                create_pool_done(before, after, items_view(res->Ok_0@), name, devs, outcome),
        },
    }
}

/// Reads the arguments of a call of `CreatePool`: what is handed to the engine.
pub fn read_create_pool_args(args: &Vec<MessageItem>) -> (res: Result<
    (String, u16, Vec<String>),
    MethodErr,
>)
    ensures
        match create_pool_args(items_view(args@)) {
            Ok((name, raid_level, devs)) => res matches Ok(read) && read.0@ == name && read.1
                == raid_level && strings_view(read.2@) == devs,
            Err(e) => res == Err::<(String, u16, Vec<String>), MethodErr>(e),
        },
{
    let name = match read_str(args, 0) {
        Ok(name) => name,
        Err(e) => {
            return Err(e);
        },
    };
    let raid_level = match read_u16(args, 1) {
        Ok(raid_level) => raid_level,
        Err(e) => {
            return Err(e);
        },
    };
    let blockdevs = match read_str_array(args, 2) {
        Ok(blockdevs) => blockdevs,
        Err(e) => {
            return Err(e);
        },
    };
    Ok((name, raid_level, blockdevs))
}

/// `CreatePool`: has the engine make a pool and, where it did, gives the pool its object on
/// the bus and its place in the registry. A call whose arguments are not a name, a raid
/// type and a list of devices is turned away before anything is asked or changed. Where a
/// pool stands under the name already, or every identifier has been given out, the engine
/// is not asked. The engine is handed what `read_create_pool_args` has read.
pub fn create_pool<E: Engine>(dbus_context: &mut DbusContext<E>, args: &Vec<MessageItem>) -> (res:
    MethodResult)
    requires
        old(dbus_context).wf(),
    ensures
        final(dbus_context).wf(),
        create_pool_post(*old(dbus_context), *final(dbus_context), items_view(args@), res),
{
    let (name, raid_level, blockdevs) = match read_create_pool_args(args) {
        Ok(read) => read,
        Err(e) => {
            return Err(e);
        },
    };

    match refuse_create_pool(dbus_context, name.as_str()) {
        Some(refusal) => {
            return Ok(refusal);
        },
        None => {},
    }
    let result = dbus_context.engine.create_pool(name.as_str(), &blockdevs, raid_level);

    let ghost parsed = create_pool_args(items_view(args@))->Ok_0;
    let reply = finish_create_pool(dbus_context, name, blockdevs, result);
    let res: MethodResult = Ok(reply);
    assert(create_pool_done(
        *old(dbus_context),
        *dbus_context,
        items_view(res->Ok_0@),
        parsed.0,
        parsed.2,
        result,
    ));
    res
}

/// Whether a reply of `CreatePool` says that no pool was made: it names the default path
/// and a category other than success.
pub open spec fn says_not_made(reply: Seq<Item>) -> bool {
    &&& reply.len() == 3
    &&& reply[0] == Item::ObjectPath(DEFAULT_OBJECT_PATH@)
    &&& reply[1] matches Item::UInt16(code) && code != 0
    &&& reply[2] is Str
}

/// Whether a reply of `CreatePool` names the object of the pool that was given the
/// identifier `id` and reports success.
pub open spec fn says_made(reply: Seq<Item>, id: nat) -> bool {
    &&& reply.len() == 3
    &&& reply[0] == Item::ObjectPath(pool_object_path(id))
    &&& reply[1] == Item::UInt16(0)
    &&& reply[2] == Item::Str("Ok"@)
}

/// Where a pool was made, the reply reports success and names a path at which no object
/// stood before and which is neither the default path nor the path of any pool that was
/// given an identifier before; at that path the pool's object now stands, with the methods
/// that act on a pool, and the pool is in the registry under its name.
pub proof fn lemma_pool_made<E: Engine>(
    before: DbusContext<E>,
    after: DbusContext<E>,
    reply: Seq<Item>,
    name: Seq<char>,
    devs: Seq<Seq<char>>,
)
    requires
        pool_made(before, after, reply, name, devs),
    ensures
        says_made(reply, after.next_index as nat),
        !says_not_made(reply),
        after.next_index == before.next_index + 1,
        forall|id: nat|
            id <= before.next_index ==> #[trigger] pool_object_path(id) != pool_object_path(
                after.next_index as nat,
            ),
        pool_object_path(after.next_index as nat) != DEFAULT_OBJECT_PATH@,
        !has_object(before.tree@, pool_object_path(after.next_index as nat)),
        object_at(after.tree@, pool_object_path(after.next_index as nat)) == Some(
            pool_object(pool_object_path(after.next_index as nat)),
        ),
        after.pools@.contains_key(name),
        after.pools@[name] == Pool::spec_new(pool_object_path(after.next_index as nat), devs),
{
    let path = pool_object_path(after.next_index as nat);
    assert forall|id: nat| id <= before.next_index implies #[trigger] pool_object_path(id)
        != path by {
        if pool_object_path(id) == path {
            lemma_pool_object_path_injective(id, after.next_index as nat);
        }
    }
    lemma_pool_object_path_not_default(after.next_index as nat);
}

/// Where the engine was asked and made the pool, the pool is made: `CreatePool` asks the
/// engine only for a name that it does not refuse.
pub proof fn lemma_create_pool_new_handle<E: Engine>(
    before: DbusContext<E>,
    after: DbusContext<E>,
    reply: Seq<Item>,
    name: Seq<char>,
    devs: Seq<Seq<char>>,
)
    requires
        create_pool_refusal(before, name) is None,
        create_pool_done(before, after, reply, name, devs, Ok(())),
    ensures
        pool_made(before, after, reply, name, devs),
        says_made(reply, (before.next_index + 1) as nat),
{
    lemma_pool_made(before, after, reply, name, devs);
}

/// Where the engine failed, the reply names the default path and a category other than
/// success, and the registry, the objects and the identifiers are as they were.
pub proof fn lemma_create_pool_failure<E: Engine>(
    before: DbusContext<E>,
    after: DbusContext<E>,
    reply: Seq<Item>,
    name: Seq<char>,
    devs: Seq<Seq<char>>,
    err: StratisError,
)
    requires
        create_pool_done(before, after, reply, name, devs, Err(err)),
    ensures
        says_not_made(reply),
        reply[1] == Item::UInt16(error_code(err).error_int()),
        reply[2] == Item::Str(error_code(err).error_string()),
        state_kept(before, after),
{
    lemma_error_code_not_ok(err);
}

/// Whatever the engine says, a call of `CreatePool` that is not turned away is answered in
/// one of two ways. Either the reply reports success: then a pool was made, with all that
/// `lemma_pool_made` says of it. Or the reply names the default path and a category other
/// than success: then the registry, the objects and the identifiers are as they were.
pub proof fn lemma_create_pool_answers<E: Engine>(
    before: DbusContext<E>,
    after: DbusContext<E>,
    args: Seq<Item>,
    res: MethodResult,
)
    requires
        create_pool_args(args) is Ok,
        create_pool_post(before, after, args, res),
    ensures
        res is Ok,
        says_not_made(items_view(res->Ok_0@)) ==> state_kept(before, after),
        !says_not_made(items_view(res->Ok_0@)) ==> {
            let path = pool_object_path(after.next_index as nat);
            &&& pool_made(
                before,
                after,
                items_view(res->Ok_0@),
                create_pool_args(args)->Ok_0.0,
                create_pool_args(args)->Ok_0.2,
            )
            &&& says_made(items_view(res->Ok_0@), after.next_index as nat)
            &&& path != DEFAULT_OBJECT_PATH@
            &&& forall|id: nat| id <= before.next_index ==> #[trigger] pool_object_path(id) != path
            &&& !has_object(before.tree@, path)
            &&& object_at(after.tree@, path) == Some(pool_object(path))
        },
{
    let (name, raid_level, devs) = create_pool_args(args)->Ok_0;
    let reply = items_view(res->Ok_0@);
    if create_pool_refusal(before, name) is None {
        let outcome = choose|outcome: StratisResult<()>|
            create_pool_done(before, after, reply, name, devs, outcome);
        match outcome {
            Ok(_) => {
                lemma_pool_made(before, after, reply, name, devs);
            },
            Err(err) => {
                lemma_error_code_not_ok(err);
            },
        }
    }
}

/// What a call of `DestroyPool` must bring: a name.
pub open spec fn destroy_pool_args(args: Seq<Item>) -> Result<Seq<char>, MethodErr> {
    arg_str(args, 0)
}

/// The reply of `DestroyPool` to what the registry answered: a pool that is busy is
/// reported as a general error, there being no category for it alone, and with the text
/// that says what it still owns, not with the text of the category; a pool that is gone, or
/// was never there, is reported as success.
pub open spec fn destroy_pool_reply(answer: Result<bool, Seq<char>>) -> Seq<Item> {
    match answer {
        Ok(_) => code_reply(StratisErrorEnum::STRATIS_OK),
        Err(reason) => seq![
            Item::UInt16(StratisErrorEnum::STRATIS_ERROR.error_int()),
            Item::Str(reason),
        ],
    }
}

/// What holds once a call of `DestroyPool` is answered. A call without a name is turned
/// away and nothing has changed. For any other call the registry is as `Pools::remove`
/// leaves it, nothing else has changed, and the reply says what the registry answered.
pub open spec fn destroy_pool_post<E: Engine>(
    before: DbusContext<E>,
    after: DbusContext<E>,
    args: Seq<Item>,
    res: MethodResult,
) -> bool {
    &&& after.next_index == before.next_index
    &&& after.tree == before.tree
    &&& after.engine == before.engine
    &&& match destroy_pool_args(args) {
        Err(e) => res == Err::<Vec<MessageItem>, MethodErr>(e) && after == before,
        Ok(name) => {
            let (answer, pools) = Pools::spec_remove(before.pools@, name);
            &&& after.pools@ == pools
            &&& !(answer matches Ok(true)) ==> after == before
            &&& res matches Ok(reply) && items_view(reply@) == destroy_pool_reply(answer)
        },
    }
}

/// `DestroyPool`: takes the pool of the name out of the registry, as `Pools::remove` does.
/// A call without a name is turned away before anything is changed. The object of a pool
/// that is destroyed stays on the bus: its path is never given to another pool, and the
/// pool is no longer found by its name.
pub fn destroy_pool<E: Engine>(dbus_context: &mut DbusContext<E>, args: &Vec<MessageItem>) -> (res:
    MethodResult)
    requires
        old(dbus_context).wf(),
    ensures
        final(dbus_context).wf(),
        destroy_pool_post(*old(dbus_context), *final(dbus_context), items_view(args@), res),
{
    let name = match read_str(args, 0) {
        Ok(name) => name,
        Err(e) => {
            return Err(e);
        },
    };

    let result = dbus_context.pools.remove(name.as_str());

    let mut reply: Vec<MessageItem> = Vec::new();
    match result {
        Ok(_) => {
            let (rc, rs) = code_to_message_items(StratisErrorEnum::STRATIS_OK);
            reply.push(rc);
            reply.push(rs);
            assert(items_view(reply@) =~= code_reply(StratisErrorEnum::STRATIS_OK));
        },
        Err(err) => {
            let code = internal_to_dbus_err(&err);
            let text = match &err {
                StratisError::Stratis(ErrorEnum::Busy(text)) => text.clone(),
                _ => code.get_error_string().to_owned(),
            };
            reply.push(MessageItem::UInt16(code.get_error_int()));
            reply.push(MessageItem::Str(text));
            assert(items_view(reply@) =~= destroy_pool_reply(
                Pools::spec_remove(old(dbus_context).pools@, name@).0,
            ));
        },
    }
    Ok(reply)
}

/// A call of `DestroyPool` for a name under which no pool stands is answered with success,
/// and nothing has changed.
pub proof fn lemma_destroy_pool_absent<E: Engine>(
    before: DbusContext<E>,
    after: DbusContext<E>,
    args: Seq<Item>,
    res: MethodResult,
    name: Seq<char>,
)
    requires
        destroy_pool_args(args) == Ok::<Seq<char>, MethodErr>(name),
        !before.pools@.contains_key(name),
        destroy_pool_post(before, after, args, res),
    ensures
        after == before,
        res matches Ok(reply) && items_view(reply@) == seq![Item::UInt16(0), Item::Str("Ok"@)],
{
}

/// A call of `DestroyPool` for a pool that owns a filesystem, a device or a cache device is
/// answered with a general error and the text that says what the pool owns, and nothing has
/// changed.
pub proof fn lemma_destroy_pool_busy<E: Engine>(
    before: DbusContext<E>,
    after: DbusContext<E>,
    args: Seq<Item>,
    res: MethodResult,
    name: Seq<char>,
)
    requires
        destroy_pool_args(args) == Ok::<Seq<char>, MethodErr>(name),
        before.pools@.contains_key(name),
        busy_reason(before.pools@[name]) is Some,
        destroy_pool_post(before, after, args, res),
    ensures
        after == before,
        res matches Ok(reply) && items_view(reply@) == seq![
            Item::UInt16(1),
            Item::Str(busy_reason(before.pools@[name])->0),
        ],
{
}

/// The reply of `ListPools`, given the names in the registry and what the engine said:
/// the names, where the engine could list its storage, and else no name and the failure.
pub open spec fn list_pools_reply(names: Seq<Seq<char>>, outcome: StratisResult<Vec<String>>) -> Seq<
    Item,
> {
    match outcome {
        Ok(_) => seq![Item::Array(str_items(names), "s"@)] + code_reply(
            StratisErrorEnum::STRATIS_OK,
        ),
        Err(err) => seq![Item::Array(Seq::empty(), "s"@)] + error_reply(err),
    }
}

/// Where the engine cannot list its storage, the reply of `ListPools` holds no name, the
/// number of the outcome category of the engine's failure, which is not that of success,
/// and the text of that category. Where it can, the reply holds the names of the registry
/// and reports success.
pub proof fn lemma_list_pools_reply(names: Seq<Seq<char>>, outcome: StratisResult<Vec<String>>)
    ensures
        list_pools_reply(names, outcome).len() == 3,
        outcome matches Err(err) ==> {
            &&& list_pools_reply(names, outcome)[0] == Item::Array(Seq::empty(), "s"@)
            &&& list_pools_reply(names, outcome)[1] == Item::UInt16(error_code(err).error_int())
            &&& error_code(err).error_int() != 0
            &&& list_pools_reply(names, outcome)[2] == Item::Str(error_code(err).error_string())
        },
        outcome is Ok ==> {
            &&& list_pools_reply(names, outcome)[0] == Item::Array(str_items(names), "s"@)
            &&& list_pools_reply(names, outcome)[1] == Item::UInt16(0)
            &&& list_pools_reply(names, outcome)[2] == Item::Str("Ok"@)
        },
{
    if outcome is Err {
        lemma_error_code_not_ok(outcome->Err_0);
    }
}

/// Ends `ListPools` once the engine has answered.
pub fn finish_list_pools<E: Engine>(
    dbus_context: &DbusContext<E>,
    outcome: StratisResult<Vec<String>>,
) -> (reply: Vec<MessageItem>)
    requires
        dbus_context.wf(),
    ensures
        items_view(reply@) == list_pools_reply(dbus_context.pools.names(), outcome),
{
    let mut reply: Vec<MessageItem> = Vec::new();
    match outcome {
        Ok(_) => {
            let names = dbus_context.pools.list();
            let mut msg_vec: Vec<MessageItem> = Vec::new();
            let mut i: usize = 0;
            while i < names.len()
                invariant
                    0 <= i <= names.len(),
                    msg_vec@.len() == i,
                    forall|k: int|
                        0 <= k < i ==> (#[trigger] msg_vec@[k])@ == Item::Str(names@[k]@),
                decreases names.len() - i,
            {
                msg_vec.push(MessageItem::Str(names[i].clone()));
                i = i + 1;
            }
            let sig = "s".to_owned();
            proof {
                lemma_view_array(msg_vec, sig);
                assert(items_view(msg_vec@) =~= str_items(dbus_context.pools.names()));
            }
            let item_array = MessageItem::Array(msg_vec, sig);
            let (rc, rs) = code_to_message_items(StratisErrorEnum::STRATIS_OK);
            reply.push(item_array);
            reply.push(rc);
            reply.push(rs);
            assert(items_view(reply@) =~= list_pools_reply(dbus_context.pools.names(), outcome));
        },
        Err(x) => {
            let msg_vec: Vec<MessageItem> = Vec::new();
            let sig = "s".to_owned();
            proof {
                lemma_view_array(msg_vec, sig);
                assert(items_view(msg_vec@) =~= Seq::<Item>::empty());
            }
            let item_array = MessageItem::Array(msg_vec, sig);
            let (rc, rs) = error_to_message_items(&x);
            reply.push(item_array);
            reply.push(rc);
            reply.push(rs);
            assert(items_view(reply@) =~= list_pools_reply(dbus_context.pools.names(), outcome));
        },
    }
    reply
}

/// What holds of the answer to a call of `ListPools`: there is a reply, and it is the one
/// that `list_pools_reply` gives for something that the engine can have said.
pub open spec fn list_pools_post<E: Engine>(dbus_context: DbusContext<E>, res: MethodResult) -> bool {
    res is Ok && exists|outcome: StratisResult<Vec<String>>|
        items_view(res->Ok_0@) == #[trigger] list_pools_reply(dbus_context.pools.names(), outcome)
}

/// `ListPools`: the names of the pools in the registry, in their order. The engine is
/// asked whether it can list its storage; where it cannot, the reply holds no name and
/// reports the engine's failure. The call takes no arguments, so it is never turned away.
pub fn list_pools<E: Engine>(dbus_context: &DbusContext<E>) -> (res: MethodResult)
    requires
        dbus_context.wf(),
    ensures
        list_pools_post(*dbus_context, res),
{
    let result = dbus_context.engine.list_pools();
    let reply = finish_list_pools(dbus_context, result);
    assert(items_view(reply@) == list_pools_reply(dbus_context.pools.names(), result));
    Ok(reply)
}

/// The reply that names the object of a pool, or says that there is none: the path of the
/// pool and success, or the default path and the category that says what was not found.
pub open spec fn object_path_reply(found: Option<PoolView>, missing: StratisErrorEnum) -> Seq<Item> {
    match found {
        Some(pool) => seq![Item::ObjectPath(pool.object_path)] + code_reply(
            StratisErrorEnum::STRATIS_OK,
        ),
        None => seq![Item::ObjectPath(DEFAULT_OBJECT_PATH@)] + code_reply(missing),
    }
}

/// Builds the reply that names the object of a pool, or says that there is none.
fn reply_object_path(found: Option<&Pool>, missing: StratisErrorEnum) -> (reply: Vec<MessageItem>)
    ensures
        items_view(reply@) == object_path_reply(
            match found {
                Some(pool) => Some(pool@),
                None => None,
            },
            missing,
        ),
{
    let mut reply: Vec<MessageItem> = Vec::new();
    match found {
        Some(pool) => {
            let (rc, rs) = code_to_message_items(StratisErrorEnum::STRATIS_OK);
            reply.push(MessageItem::ObjectPath(pool.object_path.clone()));
            reply.push(rc);
            reply.push(rs);
            assert(items_view(reply@) =~= object_path_reply(Some(pool@), missing));
        },
        None => {
            let (rc, rs) = code_to_message_items(missing);
            reply.push(MessageItem::ObjectPath(default_object_path()));
            reply.push(rc);
            reply.push(rs);
            assert(items_view(reply@) =~= object_path_reply(None, missing));
        },
    }
    reply
}

/// What holds of the answer to a call of `GetPoolObjectPath`: a call without a name is
/// turned away; any other has the reply that names the object of the pool of that name.
pub open spec fn get_pool_object_path_post<E: Engine>(
    dbus_context: DbusContext<E>,
    args: Seq<Item>,
    res: MethodResult,
) -> bool {
    match arg_str(args, 0) {
        Err(e) => res == Err::<Vec<MessageItem>, MethodErr>(e),
        Ok(name) => res matches Ok(reply) && items_view(reply@) == object_path_reply(
            pool_named(dbus_context.pools@, name),
            StratisErrorEnum::STRATIS_POOL_NOTFOUND,
        ),
    }
}

/// `GetPoolObjectPath`: the path of the object of the pool of the name. Where no pool has
/// the name, the reply names the default path and says that the pool was not found.
pub fn get_pool_object_path<E: Engine>(dbus_context: &DbusContext<E>, args: &Vec<MessageItem>) -> (res:
    MethodResult)
    requires
        dbus_context.wf(),
    ensures
        get_pool_object_path_post(*dbus_context, items_view(args@), res),
{
    let name = match read_str(args, 0) {
        Ok(name) => name,
        Err(e) => {
            return Err(e);
        },
    };
    let found = dbus_context.pools.get(name.as_str());
    Ok(reply_object_path(found, StratisErrorEnum::STRATIS_POOL_NOTFOUND))
}

/// What a call of `GetVolumeObjectPath` must bring: the name of a pool and the name of a
/// volume.
pub open spec fn get_volume_object_path_args(args: Seq<Item>) -> Result<
    (Seq<char>, Seq<char>),
    MethodErr,
> {
    match arg_str(args, 0) {
        Err(e) => Err(e),
        Ok(pool_name) => match arg_str(args, 1) {
            Err(e) => Err(e),
            Ok(volume_name) => Ok((pool_name, volume_name)),
        },
    }
}

/// The reply of `GetVolumeObjectPath`. A volume is addressed through the object of the
/// pool that owns it, so the reply names that object. Where no pool has the name, it says
/// that the pool was not found; where the pool has no such volume, that the volume was not.
pub open spec fn volume_object_path_reply(
    pools: Map<Seq<char>, PoolView>,
    pool_name: Seq<char>,
    volume_name: Seq<char>,
) -> Seq<Item> {
    if !pools.contains_key(pool_name) {
        object_path_reply(None, StratisErrorEnum::STRATIS_POOL_NOTFOUND)
    } else if !pools[pool_name].filesystems.contains(volume_name) {
        object_path_reply(None, StratisErrorEnum::STRATIS_VOLUME_NOTFOUND)
    } else {
        object_path_reply(Some(pools[pool_name]), StratisErrorEnum::STRATIS_VOLUME_NOTFOUND)
    }
}

/// What holds of the answer to a call of `GetVolumeObjectPath`: a call without the two
/// names is turned away; any other has the reply of `volume_object_path_reply`.
pub open spec fn get_volume_object_path_post<E: Engine>(
    dbus_context: DbusContext<E>,
    args: Seq<Item>,
    res: MethodResult,
) -> bool {
    match get_volume_object_path_args(args) {
        Err(e) => res == Err::<Vec<MessageItem>, MethodErr>(e),
        Ok((pool_name, volume_name)) => res matches Ok(reply) && items_view(reply@)
            == volume_object_path_reply(dbus_context.pools@, pool_name, volume_name),
    }
}

/// `GetVolumeObjectPath`: the path under which a volume of a pool is addressed.
pub fn get_volume_object_path<E: Engine>(
    dbus_context: &DbusContext<E>,
    args: &Vec<MessageItem>,
) -> (res: MethodResult)
    requires
        dbus_context.wf(),
    ensures
        get_volume_object_path_post(*dbus_context, items_view(args@), res),
{
    let pool_name = match read_str(args, 0) {
        Ok(name) => name,
        Err(e) => {
            return Err(e);
        },
    };
    let volume_name = match read_str(args, 1) {
        Ok(name) => name,
        Err(e) => {
            return Err(e);
        },
    };
    match dbus_context.pools.get(pool_name.as_str()) {
        None => Ok(reply_object_path(None, StratisErrorEnum::STRATIS_POOL_NOTFOUND)),
        Some(pool) => {
            if pool.owns(Owned::Filesystem, volume_name.as_str()) {
                Ok(reply_object_path(Some(pool), StratisErrorEnum::STRATIS_VOLUME_NOTFOUND))
            } else {
                Ok(reply_object_path(None, StratisErrorEnum::STRATIS_VOLUME_NOTFOUND))
            }
        },
    }
}

/// The pool that owns a thing of the kind under the name: of those that do, the one whose
/// name comes first.
pub open spec fn owner(pools: Pools, kind: Owned, thing: Seq<char>) -> Option<PoolView> {
    match first_owner(pools.names(), pools@, kind, thing) {
        Some(name) => Some(pools@[name]),
        None => None,
    }
}

/// What holds of the answer to a call that asks for the object of a thing that a pool
/// owns: a call without a name is turned away; any other has the reply that names the
/// object of the owner, or says under `missing` that there is none.
pub open spec fn get_owner_object_path_post<E: Engine>(
    dbus_context: DbusContext<E>,
    kind: Owned,
    missing: StratisErrorEnum,
    args: Seq<Item>,
    res: MethodResult,
) -> bool {
    match arg_str(args, 0) {
        Err(e) => res == Err::<Vec<MessageItem>, MethodErr>(e),
        Ok(name) => res matches Ok(reply) && items_view(reply@) == object_path_reply(
            owner(dbus_context.pools, kind, name),
            missing,
        ),
    }
}

/// `GetDevObjectPath`: the path under which a device is addressed, which is the path of
/// the object of the pool that owns it. Where no pool owns such a device, the reply names
/// the default path and says that the device was not found.
pub fn get_dev_object_path<E: Engine>(dbus_context: &DbusContext<E>, args: &Vec<MessageItem>) -> (res:
    MethodResult)
    requires
        dbus_context.wf(),
    ensures
        get_owner_object_path_post(
            *dbus_context,
            Owned::BlockDev,
            StratisErrorEnum::STRATIS_DEV_NOTFOUND,
            items_view(args@),
            res,
        ),
{
    let name = match read_str(args, 0) {
        Ok(name) => name,
        Err(e) => {
            return Err(e);
        },
    };
    let found = dbus_context.pools.owner_of(Owned::BlockDev, name.as_str());
    Ok(reply_object_path(found, StratisErrorEnum::STRATIS_DEV_NOTFOUND))
}

/// `GetCacheObjectPath`: the path under which a cache device is addressed, which is the
/// path of the object of the pool that owns it. Where no pool owns such a cache device, the
/// reply names the default path and says that the cache device was not found.
pub fn get_cache_object_path<E: Engine>(dbus_context: &DbusContext<E>, args: &Vec<MessageItem>) -> (res:
    MethodResult)
    requires
        dbus_context.wf(),
    ensures
        get_owner_object_path_post(
            *dbus_context,
            Owned::CacheDev,
            StratisErrorEnum::STRATIS_CACHE_NOTFOUND,
            items_view(args@),
            res,
        ),
{
    let name = match read_str(args, 0) {
        Ok(name) => name,
        Err(e) => {
            return Err(e);
        },
    };
    let found = dbus_context.pools.owner_of(Owned::CacheDev, name.as_str());
    Ok(reply_object_path(found, StratisErrorEnum::STRATIS_CACHE_NOTFOUND))
}

/// A value of an enumeration as it goes over the bus: its label, its number and its text.
pub open spec fn code_entry<T: HasCodes>(value: T) -> Item {
    Item::Struct(
        seq![
            Item::Str(value.label()),
            Item::UInt16(value.error_int()),
            Item::Str(value.error_string()),
        ],
    )
}

/// The values of an enumeration as they go over the bus, in their order.
pub open spec fn code_entries<T: HasCodes>(values: Seq<T>) -> Seq<Item> {
    Seq::new(values.len(), |i: int| code_entry(values[i]))
}

/// What holds of a reply that lists the values of an enumeration: it is one array, which
/// holds for each value, in their order, its label, its number and its text.
pub open spec fn list_items_post<T: HasCodes>(values: Seq<T>, res: MethodResult) -> bool {
    res matches Ok(reply) && items_view(reply@) == seq![
        Item::Array(code_entries(values), "(sqs)"@),
    ]
}

/// The reply that lists the values of an enumeration.
pub fn get_list_items<T: HasCodes>(values: &Vec<T>) -> (res: MethodResult)
    ensures
        list_items_post(values@, res),
{
    let mut msg_vec: Vec<MessageItem> = Vec::new();
    let mut i: usize = 0;
    while i < values.len()
        invariant
            0 <= i <= values.len(),
            msg_vec@.len() == i,
            forall|k: int| 0 <= k < i ==> (#[trigger] msg_vec@[k])@ == code_entry(values@[k]),
        decreases values.len() - i,
    {
        let item = &values[i];
        let mut fields: Vec<MessageItem> = Vec::new();
        fields.push(MessageItem::Str(item.to_string()));
        fields.push(MessageItem::UInt16(item.get_error_int()));
        fields.push(MessageItem::Str(item.get_error_string().to_owned()));
        proof {
            lemma_view_struct(fields);
            assert(items_view(fields@) =~= seq![
                Item::Str(item.label()),
                Item::UInt16(item.error_int()),
                Item::Str(item.error_string()),
            ]);
        }
        msg_vec.push(MessageItem::Struct(fields));
        i = i + 1;
    }
    let sig = "(sqs)".to_owned();
    proof {
        lemma_view_array(msg_vec, sig);
        assert(items_view(msg_vec@) =~= code_entries(values@));
    }
    let item_array = MessageItem::Array(msg_vec, sig);
    let mut reply: Vec<MessageItem> = Vec::new();
    reply.push(item_array);
    assert(items_view(reply@) =~= seq![Item::Array(code_entries(values@), "(sqs)"@)]);
    Ok(reply)
}

/// `GetErrorCodes`: every outcome category with its label, its number and its text,
/// whatever the state of the service.
pub fn get_error_codes() -> (res: MethodResult)
    ensures
        list_items_post(StratisErrorEnum::variants(), res),
{
    get_list_items(&StratisErrorEnum::iter_variants())
}

/// `GetRaidLevels`: every raid type with its label, its number and its text, whatever the
/// state of the service.
pub fn get_raid_levels() -> (res: MethodResult)
    ensures
        list_items_post(StratisRaidType::variants(), res),
{
    get_list_items(&StratisRaidType::iter_variants())
}

/// `GetDevTypes`: a reply without items.
pub fn get_dev_types() -> (res: MethodResult)
    ensures
        res matches Ok(reply) && reply@.len() == 0,
{
    Ok(Vec::new())
}


/// The reply with which an operation of a pool's own object answers: a path, a number
/// and a text, always the same. The object of a pool stays on the bus when the pool is
/// destroyed, and its operations go on answering so.
pub open spec fn acknowledgement() -> Seq<Item> {
    seq![Item::Str("/dbus/cache/path"@), Item::Int32(0), Item::Str("Ok"@)]
}

/// Builds the acknowledgement.
fn acknowledge() -> (res: MethodResult)
    ensures
        res matches Ok(reply) && items_view(reply@) == acknowledgement(),
{
    let mut reply: Vec<MessageItem> = Vec::new();
    reply.push(MessageItem::Str("/dbus/cache/path".to_owned()));
    reply.push(MessageItem::Int32(0));
    reply.push(MessageItem::Str("Ok".to_owned()));
    assert(items_view(reply@) =~= acknowledgement());
    Ok(reply)
}

/// `CreateVolumes`: acknowledges the call.
pub fn create_volumes() -> (res: MethodResult)
    ensures
        res matches Ok(reply) && items_view(reply@) == acknowledgement(),
{
    acknowledge()
}

/// `DestroyVolumes`: acknowledges the call.
pub fn destroy_volumes() -> (res: MethodResult)
    ensures
        res matches Ok(reply) && items_view(reply@) == acknowledgement(),
{
    acknowledge()
}

/// `ListVolumes`: acknowledges the call.
pub fn list_volumes() -> (res: MethodResult)
    ensures
        res matches Ok(reply) && items_view(reply@) == acknowledgement(),
{
    acknowledge()
}

/// `ListDevs`: acknowledges the call.
pub fn list_devs() -> (res: MethodResult)
    ensures
        res matches Ok(reply) && items_view(reply@) == acknowledgement(),
{
    acknowledge()
}

/// `ListCacheDevs`: acknowledges the call.
pub fn list_cache_devs() -> (res: MethodResult)
    ensures
        res matches Ok(reply) && items_view(reply@) == acknowledgement(),
{
    acknowledge()
}

/// `AddCacheDevs`: acknowledges the call.
pub fn add_cache_devs() -> (res: MethodResult)
    ensures
        res matches Ok(reply) && items_view(reply@) == acknowledgement(),
{
    acknowledge()
}

/// `RemoveCacheDevs`: acknowledges the call.
pub fn remove_cache_devs() -> (res: MethodResult)
    ensures
        res matches Ok(reply) && items_view(reply@) == acknowledgement(),
{
    acknowledge()
}

/// `AddDevs`: acknowledges the call.
pub fn add_devs() -> (res: MethodResult)
    ensures
        res matches Ok(reply) && items_view(reply@) == acknowledgement(),
{
    acknowledge()
}

/// `RemoveDevs`: acknowledges the call.
pub fn remove_devs() -> (res: MethodResult)
    ensures
        res matches Ok(reply) && items_view(reply@) == acknowledgement(),
{
    acknowledge()
}

/// What holds once a call of an operation is answered: what holds for that operation.
/// Only `CreatePool` and `DestroyPool` change the state.
pub open spec fn call_post<E: Engine>(
    operation: Operation,
    before: DbusContext<E>,
    after: DbusContext<E>,
    args: Seq<Item>,
    res: MethodResult,
) -> bool {
    match operation {
        Operation::CreatePool => create_pool_post(before, after, args, res),
        Operation::DestroyPool => destroy_pool_post(before, after, args, res),
        Operation::ListPools => after == before && list_pools_post(before, res),
        Operation::GetPoolObjectPath => after == before && get_pool_object_path_post(
            before,
            args,
            res,
        ),
        Operation::GetVolumeObjectPath => after == before && get_volume_object_path_post(
            before,
            args,
            res,
        ),
        Operation::GetDevObjectPath => after == before && get_owner_object_path_post(
            before,
            Owned::BlockDev,
            StratisErrorEnum::STRATIS_DEV_NOTFOUND,
            args,
            res,
        ),
        Operation::GetCacheObjectPath => after == before && get_owner_object_path_post(
            before,
            Owned::CacheDev,
            StratisErrorEnum::STRATIS_CACHE_NOTFOUND,
            args,
            res,
        ),
        Operation::GetErrorCodes => after == before && list_items_post(
            StratisErrorEnum::variants(),
            res,
        ),
        Operation::GetRaidLevels => after == before && list_items_post(
            StratisRaidType::variants(),
            res,
        ),
        Operation::GetDevTypes => after == before && (res matches Ok(reply) && reply@.len() == 0),
        _ => after == before && (res matches Ok(reply) && items_view(reply@) == acknowledgement()),
    }
}

/// Answers a call of `operation` with the arguments `args`.
pub fn call<E: Engine>(
    dbus_context: &mut DbusContext<E>,
    operation: Operation,
    args: &Vec<MessageItem>,
) -> (res: MethodResult)
    requires
        old(dbus_context).wf(),
    ensures
        final(dbus_context).wf(),
        call_post(operation, *old(dbus_context), *final(dbus_context), items_view(args@), res),
{
    match operation {
        Operation::ListPools => list_pools(dbus_context),
        Operation::CreatePool => create_pool(dbus_context, args),
        Operation::DestroyPool => destroy_pool(dbus_context, args),
        Operation::GetPoolObjectPath => get_pool_object_path(dbus_context, args),
        Operation::GetVolumeObjectPath => get_volume_object_path(dbus_context, args),
        Operation::GetDevObjectPath => get_dev_object_path(dbus_context, args),
        Operation::GetCacheObjectPath => get_cache_object_path(dbus_context, args),
        Operation::GetErrorCodes => get_error_codes(),
        Operation::GetRaidLevels => get_raid_levels(),
        Operation::GetDevTypes => get_dev_types(),
        Operation::CreateVolumes => create_volumes(),
        Operation::DestroyVolumes => destroy_volumes(),
        Operation::ListVolumes => list_volumes(),
        Operation::ListDevs => list_devs(),
        Operation::ListCacheDevs => list_cache_devs(),
        Operation::AddCacheDevs => add_cache_devs(),
        Operation::RemoveCacheDevs => remove_cache_devs(),
        Operation::AddDevs => add_devs(),
        Operation::RemoveDevs => remove_devs(),
    }
}

/// Whatever is called, identifiers are not taken back and objects stay where they are:
/// the identifier given out last is not below what it was, and every object that was on the
/// bus is still there, at its place and as it was.
pub proof fn lemma_call_only_adds<E: Engine>(
    operation: Operation,
    before: DbusContext<E>,
    after: DbusContext<E>,
    args: Seq<Item>,
    res: MethodResult,
)
    requires
        call_post(operation, before, after, args, res),
    ensures
        after.next_index >= before.next_index,
        after.tree@.len() >= before.tree@.len(),
        forall|i: int| 0 <= i < before.tree@.len() ==> after.tree@[i] == before.tree@[i],
        forall|path: Seq<char>|
            has_object(before.tree@, path) ==> #[trigger] has_object(after.tree@, path),
{
    if operation == Operation::CreatePool && create_pool_args(args) is Ok && !(after == before) {
        let (name, raid_level, devs) = create_pool_args(args)->Ok_0;
        let outcome = choose|outcome: StratisResult<()>|
            create_pool_done(before, after, items_view(res->Ok_0@), name, devs, outcome);
        assert(create_pool_done(before, after, items_view(res->Ok_0@), name, devs, outcome));
    }
    assert forall|path: Seq<char>| has_object(before.tree@, path) implies #[trigger] has_object(
        after.tree@,
        path,
    ) by {
        let i = choose|i: int| 0 <= i < before.tree@.len() && #[trigger] before.tree@[i].name == path;
        assert(after.tree@[i].name == path);
    }
}

} // verus!
