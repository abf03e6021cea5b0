use stratisd::dbus_api::get_base_tree;
use stratisd::tree::{Argument, Interface, Method, ObjectPath, Operation, Tree};

fn argument(name: &str, sig: &str) -> Argument {
    Argument { name: name.to_string(), sig: sig.to_string() }
}

fn method(name: &str, handler: Operation, in_args: &[(&str, &str)], out_args: &[(&str, &str)]) -> Method {
    Method {
        name: name.to_string(),
        handler,
        in_args: in_args.iter().map(|(n, s)| argument(n, s)).collect(),
        out_args: out_args.iter().map(|(n, s)| argument(n, s)).collect(),
    }
}

#[test]
fn builders_put_things_in_their_order() {
    let built = Method::new("M", Operation::ListPools).in_arg("a", "s").out_arg("x", "q").in_arg("b", "as");
    assert_eq!(built, method("M", Operation::ListPools, &[("a", "s"), ("b", "as")], &[("x", "q")]));
    let iface = Interface::new("I").add_m(Method::new("M", Operation::ListPools)).add_m(Method::new(
        "N",
        Operation::GetDevTypes,
    ));
    assert_eq!(iface.name, "I");
    assert_eq!(iface.methods.len(), 2);
    assert_eq!(iface.methods[0].name, "M");
    assert_eq!(iface.methods[1].name, "N");
    let object = ObjectPath::new("/o".to_string());
    assert!(!object.introspectable);
    let object = object.introspectable().add(iface);
    assert!(object.introspectable);
    assert_eq!(object.get_name(), "/o");
    assert_eq!(object.ifaces.len(), 1);
}

#[test]
fn tree_holds_one_object_at_a_path() {
    let mut tree = Tree::new();
    assert_eq!(tree.len(), 0);
    assert!(tree.get("/a").is_none());
    assert!(tree.add(ObjectPath::new("/a".to_string())));
    assert!(tree.add(ObjectPath::new("/b".to_string()).introspectable()));
    assert!(!tree.add(ObjectPath::new("/a".to_string()).introspectable()));
    assert_eq!(tree.len(), 2);
    assert_eq!(tree.index(0).name, "/a");
    assert_eq!(tree.index(1).name, "/b");
    assert!(!tree.get("/a").unwrap().introspectable);
    assert!(tree.get("/b").unwrap().introspectable);
    assert!(tree.get("/c").is_none());
}

#[test]
fn base_tree_has_the_methods_of_the_service() {
    let tree = get_base_tree();
    assert_eq!(tree.len(), 1);
    let object = tree.get("/base").unwrap();
    assert!(object.introspectable);
    assert_eq!(object.ifaces.len(), 1);
    let iface = &object.ifaces[0];
    assert_eq!(iface.name, "org.storage.stratis1.Manager");
    let reply = [("object_path", "o"), ("return_code", "q"), ("return_string", "s")];
    let expected = vec![
        method(
            "ListPools",
            Operation::ListPools,
            &[],
            &[("pool_names", "as"), ("return_code", "q"), ("return_string", "s")],
        ),
        method(
            "CreatePool",
            Operation::CreatePool,
            &[("pool_name", "s"), ("raid_type", "q"), ("dev_list", "as")],
            &reply,
        ),
        method(
            "DestroyPool",
            Operation::DestroyPool,
            &[("pool_name", "s")],
            &[("return_code", "q"), ("return_string", "s")],
        ),
        method("GetPoolObjectPath", Operation::GetPoolObjectPath, &[("pool_name", "s")], &reply),
        method(
            "GetVolumeObjectPath",
            Operation::GetVolumeObjectPath,
            &[("pool_name", "s"), ("volume_name", "s")],
            &reply,
        ),
        method("GetDevObjectPath", Operation::GetDevObjectPath, &[("dev_name", "s")], &reply),
        method("GetCacheObjectPath", Operation::GetCacheObjectPath, &[("cache_dev_name", "s")], &reply),
        method("GetErrorCodes", Operation::GetErrorCodes, &[], &[("error_codes", "a(sqs)")]),
        method("GetRaidLevels", Operation::GetRaidLevels, &[], &[("error_codes", "a(sqs)")]),
        method("GetDevTypes", Operation::GetDevTypes, &[], &[]),
    ];
    assert_eq!(iface.methods, expected);
}
