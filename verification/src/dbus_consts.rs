//! Names, paths and the two closed enumerations that the service puts on the bus.

use vstd::prelude::*;

verus! {

/// The path of the service's own object; every pool's object lies one segment below it.
pub const STRATIS_BASE_PATH: &'static str = "/base";

/// The name under which the service is registered on the bus.
pub const STRATIS_BASE_SERVICE: &'static str = "org.storage.stratis1";

/// The interface that carries every method of the service.
pub const STRATIS_MANAGER_INTERFACE: &'static str = "org.storage.stratis1.Manager";

/// The path that stands in a reply where there is no object to name.
pub const DEFAULT_OBJECT_PATH: &'static str = "/";

/// The names of the methods of the service's own object.
pub const LIST_POOLS: &'static str = "ListPools";

pub const CREATE_POOL: &'static str = "CreatePool";

pub const DESTROY_POOL: &'static str = "DestroyPool";

pub const GET_POOL_OBJECT_PATH: &'static str = "GetPoolObjectPath";

pub const GET_VOLUME_OBJECT_PATH: &'static str = "GetVolumeObjectPath";

pub const GET_DEV_OBJECT_PATH: &'static str = "GetDevObjectPath";

pub const GET_CACHE_OBJECT_PATH: &'static str = "GetCacheObjectPath";

pub const GET_ERROR_CODES: &'static str = "GetErrorCodes";

pub const GET_RAID_LEVELS: &'static str = "GetRaidLevels";

pub const GET_DEV_TYPES: &'static str = "GetDevTypes";

/// The names of the methods of a pool's object.
pub const CREATE_VOLUMES: &'static str = "CreateVolumes";

pub const DESTROY_VOLUMES: &'static str = "DestroyVolumes";

pub const LIST_VOLUMES: &'static str = "ListVolumes";

pub const LIST_DEVS: &'static str = "ListDevs";

pub const LIST_CACHE_DEVS: &'static str = "ListCacheDevs";

pub const ADD_CACHE_DEVS: &'static str = "AddCacheDevs";

pub const REMOVE_CACHE_DEVS: &'static str = "RemoveCacheDevs";

pub const ADD_DEVS: &'static str = "AddDevs";

pub const REMOVE_DEVS: &'static str = "RemoveDevs";

/// A value of a closed enumeration that goes over the bus as a label, a number and a text.
pub trait HasCodes: Sized {
    /// The number that stands for the value on the wire.
    spec fn error_int(&self) -> u16;

    /// The text that explains the value to a human reader.
    spec fn error_string(&self) -> Seq<char>;

    /// The value's own name, as it is written in the enumeration.
    spec fn label(&self) -> Seq<char>;

    fn get_error_int(&self) -> (code: u16)
        ensures
            code == self.error_int(),
    ;

    fn get_error_string(&self) -> (message: &'static str)
        ensures
            message@ == self.error_string(),
    ;

    fn to_string(&self) -> (label: String)
        ensures
            label@ == self.label(),
    ;
}

/// The outcome categories that a reply can carry.
#[allow(non_camel_case_types)]
#[derive(Clone, Copy, Debug, PartialEq, Eq, Structural)]
pub enum StratisErrorEnum {
    STRATIS_OK,
    STRATIS_ERROR,
    STRATIS_NULL,
    STRATIS_NOTFOUND,
    STRATIS_POOL_NOTFOUND,
    STRATIS_VOLUME_NOTFOUND,
    STRATIS_DEV_NOTFOUND,
    STRATIS_CACHE_NOTFOUND,
    STRATIS_BAD_PARAM,
    STRATIS_ALREADY_EXISTS,
    STRATIS_NULL_NAME,
    STRATIS_NO_POOLS,
    STRATIS_LIST_FAILURE,
}

impl StratisErrorEnum {
    /// Every outcome category, in the order of their numbers.
    pub open spec fn variants() -> Seq<StratisErrorEnum> {
        seq![
            StratisErrorEnum::STRATIS_OK,
            StratisErrorEnum::STRATIS_ERROR,
            StratisErrorEnum::STRATIS_NULL,
            StratisErrorEnum::STRATIS_NOTFOUND,
            StratisErrorEnum::STRATIS_POOL_NOTFOUND,
            StratisErrorEnum::STRATIS_VOLUME_NOTFOUND,
            StratisErrorEnum::STRATIS_DEV_NOTFOUND,
            StratisErrorEnum::STRATIS_CACHE_NOTFOUND,
            StratisErrorEnum::STRATIS_BAD_PARAM,
            StratisErrorEnum::STRATIS_ALREADY_EXISTS,
            StratisErrorEnum::STRATIS_NULL_NAME,
            StratisErrorEnum::STRATIS_NO_POOLS,
            StratisErrorEnum::STRATIS_LIST_FAILURE,
        ]
    }

    /// Every outcome category, in the order of their numbers.
    pub fn iter_variants() -> (all: Vec<StratisErrorEnum>)
        ensures
            all@ == Self::variants(),
    {
        let mut all: Vec<StratisErrorEnum> = Vec::new();
        all.push(StratisErrorEnum::STRATIS_OK);
        all.push(StratisErrorEnum::STRATIS_ERROR);
        all.push(StratisErrorEnum::STRATIS_NULL);
        all.push(StratisErrorEnum::STRATIS_NOTFOUND);
        all.push(StratisErrorEnum::STRATIS_POOL_NOTFOUND);
        all.push(StratisErrorEnum::STRATIS_VOLUME_NOTFOUND);
        all.push(StratisErrorEnum::STRATIS_DEV_NOTFOUND);
        all.push(StratisErrorEnum::STRATIS_CACHE_NOTFOUND);
        all.push(StratisErrorEnum::STRATIS_BAD_PARAM);
        all.push(StratisErrorEnum::STRATIS_ALREADY_EXISTS);
        all.push(StratisErrorEnum::STRATIS_NULL_NAME);
        all.push(StratisErrorEnum::STRATIS_NO_POOLS);
        all.push(StratisErrorEnum::STRATIS_LIST_FAILURE);
        assert(all@ =~= Self::variants());
        all
    }

    /// The enumeration is closed: each category stands in `variants`, at the place that its
    /// number gives, so no two categories share a number.
    pub proof fn lemma_variants_complete(code: StratisErrorEnum)
        ensures
            Self::variants().len() == 13,
            0 <= code.error_int() < Self::variants().len(),
            Self::variants()[code.error_int() as int] == code,
    {
    }
}

impl HasCodes for StratisErrorEnum {
    open spec fn error_int(&self) -> u16 {
        match self {
            StratisErrorEnum::STRATIS_OK => 0,
            StratisErrorEnum::STRATIS_ERROR => 1,
            StratisErrorEnum::STRATIS_NULL => 2,
            StratisErrorEnum::STRATIS_NOTFOUND => 3,
            StratisErrorEnum::STRATIS_POOL_NOTFOUND => 4,
            StratisErrorEnum::STRATIS_VOLUME_NOTFOUND => 5,
            StratisErrorEnum::STRATIS_DEV_NOTFOUND => 6,
            StratisErrorEnum::STRATIS_CACHE_NOTFOUND => 7,
            StratisErrorEnum::STRATIS_BAD_PARAM => 8,
            StratisErrorEnum::STRATIS_ALREADY_EXISTS => 9,
            StratisErrorEnum::STRATIS_NULL_NAME => 10,
            StratisErrorEnum::STRATIS_NO_POOLS => 11,
            StratisErrorEnum::STRATIS_LIST_FAILURE => 12,
        }
    }

    open spec fn error_string(&self) -> Seq<char> {
        match self {
            StratisErrorEnum::STRATIS_OK => "Ok"@,
            StratisErrorEnum::STRATIS_ERROR => "A general error happened"@,
            StratisErrorEnum::STRATIS_NULL => "Null parameter was supplied"@,
            StratisErrorEnum::STRATIS_NOTFOUND => "Not found"@,
            StratisErrorEnum::STRATIS_POOL_NOTFOUND => "Pool not found"@,
            StratisErrorEnum::STRATIS_VOLUME_NOTFOUND => "Volume not found"@,
            StratisErrorEnum::STRATIS_DEV_NOTFOUND => "Dev not found"@,
            StratisErrorEnum::STRATIS_CACHE_NOTFOUND => "Cache not found"@,
            StratisErrorEnum::STRATIS_BAD_PARAM => "Bad parameter"@,
            StratisErrorEnum::STRATIS_ALREADY_EXISTS => "Already exists"@,
            StratisErrorEnum::STRATIS_NULL_NAME => "Null name supplied"@,
            StratisErrorEnum::STRATIS_NO_POOLS => "No pools"@,
            StratisErrorEnum::STRATIS_LIST_FAILURE => "List operation failure."@,
        }
    }

    open spec fn label(&self) -> Seq<char> {
        match self {
            StratisErrorEnum::STRATIS_OK => "STRATIS_OK"@,
            StratisErrorEnum::STRATIS_ERROR => "STRATIS_ERROR"@,
            StratisErrorEnum::STRATIS_NULL => "STRATIS_NULL"@,
            StratisErrorEnum::STRATIS_NOTFOUND => "STRATIS_NOTFOUND"@,
            StratisErrorEnum::STRATIS_POOL_NOTFOUND => "STRATIS_POOL_NOTFOUND"@,
            StratisErrorEnum::STRATIS_VOLUME_NOTFOUND => "STRATIS_VOLUME_NOTFOUND"@,
            StratisErrorEnum::STRATIS_DEV_NOTFOUND => "STRATIS_DEV_NOTFOUND"@,
            StratisErrorEnum::STRATIS_CACHE_NOTFOUND => "STRATIS_CACHE_NOTFOUND"@,
            StratisErrorEnum::STRATIS_BAD_PARAM => "STRATIS_BAD_PARAM"@,
            StratisErrorEnum::STRATIS_ALREADY_EXISTS => "STRATIS_ALREADY_EXISTS"@,
            StratisErrorEnum::STRATIS_NULL_NAME => "STRATIS_NULL_NAME"@,
            StratisErrorEnum::STRATIS_NO_POOLS => "STRATIS_NO_POOLS"@,
            StratisErrorEnum::STRATIS_LIST_FAILURE => "STRATIS_LIST_FAILURE"@,
        }
    }

    fn get_error_int(&self) -> (code: u16) {
        match self {
            StratisErrorEnum::STRATIS_OK => 0,
            StratisErrorEnum::STRATIS_ERROR => 1,
            StratisErrorEnum::STRATIS_NULL => 2,
            StratisErrorEnum::STRATIS_NOTFOUND => 3,
            StratisErrorEnum::STRATIS_POOL_NOTFOUND => 4,
            StratisErrorEnum::STRATIS_VOLUME_NOTFOUND => 5,
            StratisErrorEnum::STRATIS_DEV_NOTFOUND => 6,
            StratisErrorEnum::STRATIS_CACHE_NOTFOUND => 7,
            StratisErrorEnum::STRATIS_BAD_PARAM => 8,
            StratisErrorEnum::STRATIS_ALREADY_EXISTS => 9,
            StratisErrorEnum::STRATIS_NULL_NAME => 10,
            StratisErrorEnum::STRATIS_NO_POOLS => 11,
            StratisErrorEnum::STRATIS_LIST_FAILURE => 12,
        }
    }

    fn get_error_string(&self) -> (message: &'static str) {
        match self {
            StratisErrorEnum::STRATIS_OK => "Ok",
            StratisErrorEnum::STRATIS_ERROR => "A general error happened",
            StratisErrorEnum::STRATIS_NULL => "Null parameter was supplied",
            StratisErrorEnum::STRATIS_NOTFOUND => "Not found",
            StratisErrorEnum::STRATIS_POOL_NOTFOUND => "Pool not found",
            StratisErrorEnum::STRATIS_VOLUME_NOTFOUND => "Volume not found",
            StratisErrorEnum::STRATIS_DEV_NOTFOUND => "Dev not found",
            StratisErrorEnum::STRATIS_CACHE_NOTFOUND => "Cache not found",
            StratisErrorEnum::STRATIS_BAD_PARAM => "Bad parameter",
            StratisErrorEnum::STRATIS_ALREADY_EXISTS => "Already exists",
            StratisErrorEnum::STRATIS_NULL_NAME => "Null name supplied",
            StratisErrorEnum::STRATIS_NO_POOLS => "No pools",
            StratisErrorEnum::STRATIS_LIST_FAILURE => "List operation failure.",
        }
    }

    fn to_string(&self) -> (label: String) {
        let label: &'static str = match self {
            StratisErrorEnum::STRATIS_OK => "STRATIS_OK",
            StratisErrorEnum::STRATIS_ERROR => "STRATIS_ERROR",
            StratisErrorEnum::STRATIS_NULL => "STRATIS_NULL",
            StratisErrorEnum::STRATIS_NOTFOUND => "STRATIS_NOTFOUND",
            StratisErrorEnum::STRATIS_POOL_NOTFOUND => "STRATIS_POOL_NOTFOUND",
            StratisErrorEnum::STRATIS_VOLUME_NOTFOUND => "STRATIS_VOLUME_NOTFOUND",
            StratisErrorEnum::STRATIS_DEV_NOTFOUND => "STRATIS_DEV_NOTFOUND",
            StratisErrorEnum::STRATIS_CACHE_NOTFOUND => "STRATIS_CACHE_NOTFOUND",
            StratisErrorEnum::STRATIS_BAD_PARAM => "STRATIS_BAD_PARAM",
            StratisErrorEnum::STRATIS_ALREADY_EXISTS => "STRATIS_ALREADY_EXISTS",
            StratisErrorEnum::STRATIS_NULL_NAME => "STRATIS_NULL_NAME",
            StratisErrorEnum::STRATIS_NO_POOLS => "STRATIS_NO_POOLS",
            StratisErrorEnum::STRATIS_LIST_FAILURE => "STRATIS_LIST_FAILURE",
        };
        label.to_owned()
    }
}

/// The ways in which a pool can lay its data out over its devices.
#[allow(non_camel_case_types)]
#[derive(Clone, Copy, Debug, PartialEq, Eq, Structural)]
pub enum StratisRaidType {
    STRATIS_RAID_TYPE_UNKNOWN,
    STRATIS_RAID_TYPE_SINGLE,
    STRATIS_RAID_TYPE_RAID1,
    STRATIS_RAID_TYPE_RAID5,
    STRATIS_RAID_TYPE_RAID6,
}

impl StratisRaidType {
    /// Every layout, in the order of their numbers.
    pub open spec fn variants() -> Seq<StratisRaidType> {
        seq![
            StratisRaidType::STRATIS_RAID_TYPE_UNKNOWN,
            StratisRaidType::STRATIS_RAID_TYPE_SINGLE,
            StratisRaidType::STRATIS_RAID_TYPE_RAID1,
            StratisRaidType::STRATIS_RAID_TYPE_RAID5,
            StratisRaidType::STRATIS_RAID_TYPE_RAID6,
        ]
    }

    /// Every layout, in the order of their numbers.
    pub fn iter_variants() -> (all: Vec<StratisRaidType>)
        ensures
            all@ == Self::variants(),
    {
        let mut all: Vec<StratisRaidType> = Vec::new();
        all.push(StratisRaidType::STRATIS_RAID_TYPE_UNKNOWN);
        all.push(StratisRaidType::STRATIS_RAID_TYPE_SINGLE);
        all.push(StratisRaidType::STRATIS_RAID_TYPE_RAID1);
        all.push(StratisRaidType::STRATIS_RAID_TYPE_RAID5);
        all.push(StratisRaidType::STRATIS_RAID_TYPE_RAID6);
        assert(all@ =~= Self::variants());
        all
    }

    /// The enumeration is closed: each layout stands in `variants`, at the place that its
    /// number gives, so no two layouts share a number.
    pub proof fn lemma_variants_complete(raid: StratisRaidType)
        ensures
            Self::variants().len() == 5,
            0 <= raid.error_int() < Self::variants().len(),
            Self::variants()[raid.error_int() as int] == raid,
    {
    }
}

impl HasCodes for StratisRaidType {
    open spec fn error_int(&self) -> u16 {
        match self {
            StratisRaidType::STRATIS_RAID_TYPE_UNKNOWN => 0,
            StratisRaidType::STRATIS_RAID_TYPE_SINGLE => 1,
            StratisRaidType::STRATIS_RAID_TYPE_RAID1 => 2,
            StratisRaidType::STRATIS_RAID_TYPE_RAID5 => 3,
            StratisRaidType::STRATIS_RAID_TYPE_RAID6 => 4,
        }
    }

    open spec fn error_string(&self) -> Seq<char> {
        match self {
            StratisRaidType::STRATIS_RAID_TYPE_UNKNOWN => "Unknown"@,
            StratisRaidType::STRATIS_RAID_TYPE_SINGLE => "Single"@,
            StratisRaidType::STRATIS_RAID_TYPE_RAID1 => "Mirrored"@,
            StratisRaidType::STRATIS_RAID_TYPE_RAID5 => "Block-level striping with distributed parity"@,
            StratisRaidType::STRATIS_RAID_TYPE_RAID6 => "Block-level striping with two distributed parities"@,
        }
    }

    open spec fn label(&self) -> Seq<char> {
        match self {
            StratisRaidType::STRATIS_RAID_TYPE_UNKNOWN => "STRATIS_RAID_TYPE_UNKNOWN"@,
            StratisRaidType::STRATIS_RAID_TYPE_SINGLE => "STRATIS_RAID_TYPE_SINGLE"@,
            StratisRaidType::STRATIS_RAID_TYPE_RAID1 => "STRATIS_RAID_TYPE_RAID1"@,
            StratisRaidType::STRATIS_RAID_TYPE_RAID5 => "STRATIS_RAID_TYPE_RAID5"@,
            StratisRaidType::STRATIS_RAID_TYPE_RAID6 => "STRATIS_RAID_TYPE_RAID6"@,
        }
    }

    fn get_error_int(&self) -> (code: u16) {
        match self {
            StratisRaidType::STRATIS_RAID_TYPE_UNKNOWN => 0,
            StratisRaidType::STRATIS_RAID_TYPE_SINGLE => 1,
            StratisRaidType::STRATIS_RAID_TYPE_RAID1 => 2,
            StratisRaidType::STRATIS_RAID_TYPE_RAID5 => 3,
            StratisRaidType::STRATIS_RAID_TYPE_RAID6 => 4,
        }
    }

    fn get_error_string(&self) -> (message: &'static str) {
        match self {
            StratisRaidType::STRATIS_RAID_TYPE_UNKNOWN => "Unknown",
            StratisRaidType::STRATIS_RAID_TYPE_SINGLE => "Single",
            StratisRaidType::STRATIS_RAID_TYPE_RAID1 => "Mirrored",
            StratisRaidType::STRATIS_RAID_TYPE_RAID5 => "Block-level striping with distributed parity",
            StratisRaidType::STRATIS_RAID_TYPE_RAID6 => "Block-level striping with two distributed parities",
        }
    }

    fn to_string(&self) -> (label: String) {
        let label: &'static str = match self {
            StratisRaidType::STRATIS_RAID_TYPE_UNKNOWN => "STRATIS_RAID_TYPE_UNKNOWN",
            StratisRaidType::STRATIS_RAID_TYPE_SINGLE => "STRATIS_RAID_TYPE_SINGLE",
            StratisRaidType::STRATIS_RAID_TYPE_RAID1 => "STRATIS_RAID_TYPE_RAID1",
            StratisRaidType::STRATIS_RAID_TYPE_RAID5 => "STRATIS_RAID_TYPE_RAID5",
            StratisRaidType::STRATIS_RAID_TYPE_RAID6 => "STRATIS_RAID_TYPE_RAID6",
        };
        label.to_owned()
    }
}

} // verus!
