//! The objects that the service shows on the bus: each has a path, and under that path the
//! methods that can be called on it. Objects are only ever added.

use crate::names::str_eq;
use vstd::prelude::*;

verus! {

/// The operations of the service. A method of an object names the one that answers it.
#[derive(Debug, Clone, Copy, PartialEq, Eq, Structural)]
pub enum Operation {
    ListPools,
    CreatePool,
    DestroyPool,
    GetPoolObjectPath,
    GetVolumeObjectPath,
    GetDevObjectPath,
    GetCacheObjectPath,
    GetErrorCodes,
    GetRaidLevels,
    GetDevTypes,
    CreateVolumes,
    DestroyVolumes,
    ListVolumes,
    ListDevs,
    ListCacheDevs,
    AddCacheDevs,
    RemoveCacheDevs,
    AddDevs,
    RemoveDevs,
}

/// An argument of a method, or a value of its reply: a name and the signature of its type.
#[derive(Debug, Clone, PartialEq, Eq)]
pub struct Argument {
    pub name: String,
    pub sig: String,
}

/// A method: its name, the operation behind it, what it takes and what it answers.
#[derive(Debug, PartialEq, Eq)]
pub struct Method {
    pub name: String,
    pub handler: Operation,
    pub in_args: Vec<Argument>,
    pub out_args: Vec<Argument>,
}

/// An interface: a name and the methods under it.
#[derive(Debug, PartialEq, Eq)]
pub struct Interface {
    pub name: String,
    pub methods: Vec<Method>,
}

/// An object: its path and its interfaces.
#[derive(Debug, PartialEq, Eq)]
pub struct ObjectPath {
    pub name: String,
    pub introspectable: bool,
    pub ifaces: Vec<Interface>,
}

/// What a `Method` holds.
pub struct MethodView {
    pub name: Seq<char>,
    pub handler: Operation,
    pub in_args: Seq<(Seq<char>, Seq<char>)>,
    pub out_args: Seq<(Seq<char>, Seq<char>)>,
}

/// What an `Interface` holds.
pub struct InterfaceView {
    pub name: Seq<char>,
    pub methods: Seq<MethodView>,
}

/// What an `ObjectPath` holds.
pub struct ObjectPathView {
    pub name: Seq<char>,
    pub introspectable: bool,
    pub ifaces: Seq<InterfaceView>,
}

impl MethodView {
    /// A method that takes nothing and answers nothing.
    pub open spec fn new(name: Seq<char>, handler: Operation) -> MethodView {
        MethodView { name, handler, in_args: Seq::empty(), out_args: Seq::empty() }
    }

    /// The method with one more argument, after those it has.
    pub open spec fn in_arg(self, name: Seq<char>, sig: Seq<char>) -> MethodView {
        MethodView { in_args: self.in_args.push((name, sig)), ..self }
    }

    /// The method with one more value in its reply, after those it has.
    pub open spec fn out_arg(self, name: Seq<char>, sig: Seq<char>) -> MethodView {
        MethodView { out_args: self.out_args.push((name, sig)), ..self }
    }
}

impl InterfaceView {
    /// An interface without methods.
    pub open spec fn new(name: Seq<char>) -> InterfaceView {
        InterfaceView { name, methods: Seq::empty() }
    }

    /// The interface with one more method, after those it has.
    pub open spec fn add_m(self, method: MethodView) -> InterfaceView {
        InterfaceView { methods: self.methods.push(method), ..self }
    }
}

impl ObjectPathView {
    /// An object without interfaces.
    pub open spec fn new(name: Seq<char>) -> ObjectPathView {
        ObjectPathView { name, introspectable: false, ifaces: Seq::empty() }
    }

    /// The object, made to describe itself to who asks.
    pub open spec fn introspectable(self) -> ObjectPathView {
        ObjectPathView { introspectable: true, ..self }
    }

    /// The object with one more interface, after those it has.
    pub open spec fn add(self, iface: InterfaceView) -> ObjectPathView {
        ObjectPathView { ifaces: self.ifaces.push(iface), ..self }
    }
}

impl View for Argument {
    type V = (Seq<char>, Seq<char>);

    open spec fn view(&self) -> (Seq<char>, Seq<char>) {
        (self.name@, self.sig@)
    }
}

impl View for Method {
    type V = MethodView;

    open spec fn view(&self) -> MethodView {
        MethodView {
            name: self.name@,
            handler: self.handler,
            in_args: Seq::new(self.in_args@.len(), |i: int| self.in_args@[i]@),
            out_args: Seq::new(self.out_args@.len(), |i: int| self.out_args@[i]@),
        }
    }
}

impl View for Interface {
    type V = InterfaceView;

    open spec fn view(&self) -> InterfaceView {
        InterfaceView {
            name: self.name@,
            methods: Seq::new(self.methods@.len(), |i: int| self.methods@[i]@),
        }
    }
}

impl View for ObjectPath {
    type V = ObjectPathView;

    open spec fn view(&self) -> ObjectPathView {
        ObjectPathView {
            name: self.name@,
            introspectable: self.introspectable,
            ifaces: Seq::new(self.ifaces@.len(), |i: int| self.ifaces@[i]@),
        }
    }
}

impl Method {
    /// A method that takes nothing and answers nothing.
    pub fn new(name: &str, handler: Operation) -> (method: Method)
        ensures
            method@ == MethodView::new(name@, handler),
    {
        let method = Method {
            name: name.to_owned(),
            handler,
            in_args: Vec::new(),
            out_args: Vec::new(),
        };
        assert(method@.in_args =~= Seq::empty());
        assert(method@.out_args =~= Seq::empty());
        method
    }

    /// The method with one more argument, after those it has.
    pub fn in_arg(self, name: &str, sig: &str) -> (method: Method)
        ensures
            method@ == self@.in_arg(name@, sig@),
    {
        let mut method = self;
        method.in_args.push(Argument { name: name.to_owned(), sig: sig.to_owned() });
        assert(method@.in_args =~= self@.in_args.push((name@, sig@)));
        assert(method@.out_args =~= self@.out_args);
        method
    }

    /// The method with one more value in its reply, after those it has.
    pub fn out_arg(self, name: &str, sig: &str) -> (method: Method)
        ensures
            method@ == self@.out_arg(name@, sig@),
    {
        let mut method = self;
        method.out_args.push(Argument { name: name.to_owned(), sig: sig.to_owned() });
        assert(method@.out_args =~= self@.out_args.push((name@, sig@)));
        assert(method@.in_args =~= self@.in_args);
        method
    }
}

impl Interface {
    /// An interface without methods.
    pub fn new(name: &str) -> (iface: Interface)
        ensures
            iface@ == InterfaceView::new(name@),
    {
        let iface = Interface { name: name.to_owned(), methods: Vec::new() };
        assert(iface@.methods =~= Seq::empty());
        iface
    }

    /// The interface with one more method, after those it has.
    pub fn add_m(self, method: Method) -> (iface: Interface)
        ensures
            iface@ == self@.add_m(method@),
    {
        let mut iface = self;
        iface.methods.push(method);
        assert(iface@.methods =~= self@.methods.push(method@));
        iface
    }
}

impl ObjectPath {
    /// An object without interfaces.
    pub fn new(name: String) -> (object: ObjectPath)
        ensures
            object@ == ObjectPathView::new(name@),
    {
        let object = ObjectPath { name, introspectable: false, ifaces: Vec::new() };
        assert(object@.ifaces =~= Seq::empty());
        object
    }

    /// The object, made to describe itself to who asks.
    pub fn introspectable(self) -> (object: ObjectPath)
        ensures
            object@ == self@.introspectable(),
    {
        let mut object = self;
        object.introspectable = true;
        assert(object@.ifaces =~= self@.ifaces);
        object
    }

    /// The object with one more interface, after those it has.
    pub fn add(self, iface: Interface) -> (object: ObjectPath)
        ensures
            object@ == self@.add(iface@),
    {
        let mut object = self;
        object.ifaces.push(iface);
        assert(object@.ifaces =~= self@.ifaces.push(iface@));
        object
    }

    /// The path of the object.
    pub fn get_name(&self) -> (name: &String)
        ensures
            name@ == self@.name,
    {
        &self.name
    }
}

/// Whether a character can stand in the name of a step of a path: a letter, a digit or an
/// underscore.
pub open spec fn is_path_char(c: char) -> bool {
    ||| 'A' <= c <= 'Z'
    ||| 'a' <= c <= 'z'
    ||| '0' <= c <= '9'
    ||| c == '_'
}

/// Whether a text is the path of an object as the bus takes it: it begins with a slash,
/// its steps are divided by single slashes and named in letters, digits and underscores,
/// and it ends with a slash only where it is the slash alone.
pub open spec fn valid_object_path(path: Seq<char>) -> bool {
    &&& path.len() > 0
    &&& path[0] == '/'
    &&& forall|i: int| 0 <= i < path.len() ==> #[trigger] path[i] == '/' || is_path_char(path[i])
    &&& forall|i: int| 0 < i < path.len() ==> !(path[i - 1] == '/' && #[trigger] path[i] == '/')
    &&& path.len() > 1 ==> path[path.len() - 1] != '/'
}

/// Whether every object lies at a path that the bus takes.
pub open spec fn valid_paths(objects: Seq<ObjectPathView>) -> bool {
    forall|i: int| 0 <= i < objects.len() ==> valid_object_path((#[trigger] objects[i]).name)
}

/// The first object of `objects` that lies at `path`, if there is one.
pub open spec fn object_at(objects: Seq<ObjectPathView>, path: Seq<char>) -> Option<ObjectPathView>
    decreases objects.len(),
{
    if objects.len() == 0 {
        None
    } else if objects[0].name == path {
        Some(objects[0])
    } else {
        object_at(objects.drop_first(), path)
    }
}

/// Whether some object of `objects` lies at `path`.
pub open spec fn has_object(objects: Seq<ObjectPathView>, path: Seq<char>) -> bool {
    exists|i: int| 0 <= i < objects.len() && #[trigger] objects[i].name == path
}

/// The objects of the service, in the order in which they were added. No two lie at the
/// same path.
#[derive(Debug, PartialEq, Eq)]
pub struct Tree {
    paths: Vec<ObjectPath>,
}

impl View for Tree {
    type V = Seq<ObjectPathView>;

    closed spec fn view(&self) -> Seq<ObjectPathView> {
        Seq::new(self.paths@.len(), |i: int| self.paths@[i]@)
    }
}

/// Whether no two of `objects` lie at the same path.
pub open spec fn distinct_paths(objects: Seq<ObjectPathView>) -> bool {
    forall|i: int, j: int|
        0 <= i < j < objects.len() ==> (#[trigger] objects[i]).name != (#[trigger] objects[j]).name
}

/// An object that is found lies at the path that was asked for, and is one of the objects;
/// where none is found none lies there.
pub proof fn lemma_object_at(objects: Seq<ObjectPathView>, path: Seq<char>)
    ensures
        object_at(objects, path) is Some <==> has_object(objects, path),
        object_at(objects, path) matches Some(object) ==> object.name == path && objects.contains(
            object,
        ),
    decreases objects.len(),
{
    if objects.len() > 0 {
        let rest = objects.drop_first();
        lemma_object_at(rest, path);
        if objects[0].name == path {
            assert(objects[0].name == path);
        } else {
            if has_object(rest, path) {
                let i = choose|i: int| 0 <= i < rest.len() && #[trigger] rest[i].name == path;
                assert(objects[i + 1].name == path);
            }
            if has_object(objects, path) {
                let i = choose|i: int| 0 <= i < objects.len() && #[trigger] objects[i].name == path;
                assert(rest[i - 1].name == path);
            }
            if object_at(rest, path) is Some {
                let object = object_at(rest, path)->0;
                let k = choose|k: int| 0 <= k < rest.len() && rest[k] == object;
                assert(objects[k + 1] == object);
            }
        }
    }
}

/// Among objects at distinct paths, the one found at a path is the only one there.
pub proof fn lemma_object_at_distinct(objects: Seq<ObjectPathView>, i: int)
    requires
        distinct_paths(objects),
        0 <= i < objects.len(),
    ensures
        object_at(objects, objects[i].name) == Some(objects[i]),
    decreases objects.len(),
{
    if i > 0 {
        let rest = objects.drop_first();
        assert(objects[0].name != objects[i].name);
        assert forall|a: int, b: int| 0 <= a < b < rest.len() implies (#[trigger] rest[a]).name != (
        #[trigger] rest[b]).name by {
            assert(objects[a + 1].name != objects[b + 1].name);
        }
        lemma_object_at_distinct(rest, i - 1);
    }
}

impl Tree {
    /// No two objects lie at the same path.
    pub open spec fn wf(&self) -> bool {
        distinct_paths(self@)
    }

    /// A tree without objects.
    pub fn new() -> (tree: Tree)
        ensures
            tree@ == Seq::<ObjectPathView>::empty(),
            tree.wf(),
    {
        let tree = Tree { paths: Vec::new() };
        assert(tree@ =~= Seq::<ObjectPathView>::empty());
        tree
    }

    /// The number of objects.
    pub fn len(&self) -> (n: usize)
        ensures
            n == self@.len(),
    {
        self.paths.len()
    }

    /// The object that was added as the `i`th, counted from zero.
    pub fn index(&self, i: usize) -> (object: &ObjectPath)
        requires
            i < self@.len(),
        ensures
            object@ == self@[i as int],
    {
        &self.paths[i]
    }

    /// The object at `path`.
    pub fn get(&self, path: &str) -> (found: Option<&ObjectPath>)
        ensures
            found is Some <==> has_object(self@, path@),
            found matches Some(object) ==> Some(object@) == object_at(self@, path@),
            found is None ==> object_at(self@, path@) is None,
    {
        let mut i: usize = 0;
        assert(self@.skip(0) =~= self@);
        while i < self.paths.len()
            invariant
                0 <= i <= self.paths.len(),
                object_at(self@, path@) == object_at(self@.skip(i as int), path@),
                forall|k: int| 0 <= k < i ==> (#[trigger] self@[k]).name != path@,
            decreases self.paths.len() - i,
        {
            proof {
                assert(self@.skip(i as int)[0] == self@[i as int]);
                assert(self@.skip(i as int).drop_first() =~= self@.skip(i as int + 1));
            }
            if str_eq(self.paths[i].name.as_str(), path) {
                proof {
                    lemma_object_at(self@, path@);
                }
                return Some(&self.paths[i]);
            }
            i = i + 1;
        }
        proof {
            lemma_object_at(self@, path@);
        }
        None
    }

    /// Adds `object`, unless an object lies at its path already; says whether it was added.
    pub fn add(&mut self, object: ObjectPath) -> (added: bool)
        requires
            old(self).wf(),
        ensures
            final(self).wf(),
            added == !has_object(old(self)@, object@.name),
            added ==> final(self)@ == old(self)@.push(object@),
            added ==> object_at(final(self)@, object@.name) == Some(object@),
            !added ==> final(self)@ == old(self)@,
    {
        if self.get(object.name.as_str()).is_some() {
            return false;
        }
        let ghost before = self@;
        let ghost added = object@;
        self.paths.push(object);
        proof {
            assert(self@ =~= before.push(added));
            assert forall|i: int, j: int| 0 <= i < j < self@.len() implies (#[trigger] self@[i]).name != (
            #[trigger] self@[j]).name by {
                if j == before.len() {
                    assert(before[i].name != added.name);
                }
            }
            lemma_object_at_distinct(self@, before.len() as int);
        }
        true
    }
}

} // verus!
