//! The service interface as a runtime descriptor table: a list of methods in
//! declaration order, each with a name and its parameter names. A method's
//! index is its zero-based position in the list; indices are part of the wire
//! contract, so adding a method at the end preserves every earlier index.

use vstd::prelude::*;

use crate::wire::MethodId;
use crate::wire::PartialMethodId;

verus! {

/// One declared method: its name and its parameter names in declaration
/// order. Parameter names are advisory; the parameter count and order are
/// authoritative.
#[derive(Debug)]
pub struct MethodDef {
    pub name: String,
    pub params: Vec<String>,
}

/// Model of a declared method.
pub ghost struct MethodDefModel {
    pub name: Seq<char>,
    pub params: Seq<Seq<char>>,
}

impl View for MethodDef {
    type V = MethodDefModel;

    open spec fn view(&self) -> MethodDefModel {
        MethodDefModel { name: self.name@, params: self.params.deep_view() }
    }
}

impl DeepView for MethodDef {
    type V = MethodDefModel;

    open spec fn deep_view(&self) -> MethodDefModel {
        self.view()
    }
}

/// A named collection of methods in declaration order.
#[derive(Debug)]
pub struct InterfaceDef {
    methods: Vec<MethodDef>,
}

/// Resolution of a method index against an interface: the index selects the
/// method at that zero-based position, if there is one.
pub open spec fn resolve_num(ifc: Seq<MethodDefModel>, num: u32) -> Option<int> {
    if (num as int) < ifc.len() {
        Some(num as int)
    } else {
        None
    }
}

/// Resolution of a method name against an interface: the first method with
/// that exact name, compared case-sensitively.
pub open spec fn resolve_name(ifc: Seq<MethodDefModel>, name: Seq<char>) -> Option<int>
    decreases ifc.len(),
{
    if ifc.len() == 0 {
        None
    } else if ifc[0].name == name {
        Some(0)
    } else {
        match resolve_name(ifc.drop_first(), name) {
            Some(i) => Some(i + 1),
            None => None,
        }
    }
}

/// Resolution of a partial method identifier: by index when the transport
/// decoded one, by exact name otherwise.
pub open spec fn resolve_pid(ifc: Seq<MethodDefModel>, pid: PartialMethodId) -> Option<int> {
    match pid {
        PartialMethodId::Num(n) => resolve_num(ifc, n),
        PartialMethodId::Name(s) => resolve_name(ifc, s@),
    }
}

impl View for InterfaceDef {
    type V = Seq<MethodDefModel>;

    closed spec fn view(&self) -> Seq<MethodDefModel> {
        self.methods.deep_view()
    }
}

impl InterfaceDef {
    /// An interface with no methods yet.
    pub fn new() -> (r: Self)
        ensures
            r@ == Seq::<MethodDefModel>::empty(),
    {
        InterfaceDef { methods: Vec::new() }
    }

    /// Declare one more method, at the end: its index is the previous count.
    pub fn add_method(&mut self, name: String, params: Vec<String>) -> (idx: usize)
        ensures
            final(self)@ == old(self)@.push(MethodDefModel { name: name@, params: params.deep_view() }),
            idx == old(self)@.len(),
    {
        let idx = self.methods.len();
        self.methods.push(MethodDef { name, params });
        proof {
            assert(self.methods.deep_view() =~= old(self).methods.deep_view().push(
                self.methods@[idx as int]@,
            ));
        }
        idx
    }

    /// How many methods are declared.
    pub fn method_count(&self) -> (r: usize)
        ensures
            r == self@.len(),
    {
        self.methods.len()
    }

    /// How many parameters method `i` declares.
    pub fn param_count(&self, i: usize) -> (r: usize)
        requires
            i < self@.len(),
        ensures
            r == self@[i as int].params.len(),
    {
        self.methods[i].params.len()
    }

    /// The advisory name of parameter `j` of method `i`.
    pub fn param_name(&self, i: usize, j: usize) -> (r: &String)
        requires
            i < self@.len(),
            j < self@[i as int].params.len(),
        ensures
            r@ == self@[i as int].params[j as int],
    {
        &self.methods[i].params[j]
    }

    /// The full identifier of method `i`: its declared name and its position.
    pub fn method_id(&self, i: usize) -> (r: MethodId)
        requires
            i < self@.len(),
            i <= u32::MAX,
        ensures
            r@.name == self@[i as int].name,
            r@.num == i as u32,
    {
        MethodId { name: self.methods[i].name.clone(), num: i as u32 }
    }

    /// Resolve a partial method identifier, by index when the transport
    /// decoded one, by exact name otherwise. `None` is a selection miss.
    pub fn resolve(&self, pid: PartialMethodId) -> (r: Option<usize>)
        ensures
            match r {
                Some(i) => resolve_pid(self@, pid) == Some(i as int) && i < self@.len(),
                None => resolve_pid(self@, pid) is None,
            },
    {
        match pid {
            PartialMethodId::Num(n) => {
                if (n as usize) < self.methods.len() {
                    Some(n as usize)
                } else {
                    None
                }
            },
            PartialMethodId::Name(s) => {
                proof {
                    assert(self@.subrange(0, self@.len() as int) =~= self@);
                }
                let mut i: usize = 0;
                while i < self.methods.len()
                    invariant
                        pid is Name,
                        pid->Name_0 == s,
                        i <= self@.len(),
                        forall|j: int| 0 <= j < i ==> self@[j].name != s@,
                        resolve_name(self@, s@) == (match resolve_name(
                            self@.subrange(i as int, self@.len() as int),
                            s@,
                        ) {
                            Some(k) => Some(k + i),
                            None => None::<int>,
                        }),
                    decreases self@.len() - i,
                {
                    if self.methods[i].name.eq(&s) {
                        proof {
                            assert(self@.subrange(i as int, self@.len() as int)[0].name == s@);
                            assert(resolve_name(
                                self@.subrange(i as int, self@.len() as int),
                                s@,
                            ) == Some(0int));
                            assert(resolve_name(self@, s@) == Some(i as int));
                        }
                        return Some(i);
                    }
                    proof {
                        let tail = self@.subrange(i as int, self@.len() as int);
                        assert(tail.drop_first() =~= self@.subrange(i + 1, self@.len() as int));
                    }
                    i = i + 1;
                }
                proof {
                    assert(self@.subrange(i as int, self@.len() as int).len() == 0);
                }
                None
            },
        }
    }
}

/// All method names of the interface are distinct.
pub open spec fn unique_names(ifc: Seq<MethodDefModel>) -> bool {
    forall|i: int, j: int| 0 <= i < j < ifc.len() ==> ifc[i].name != ifc[j].name
}

/// With distinct names, resolving a declared method's own name finds exactly
/// that method.
pub proof fn lemma_resolve_name_finds(ifc: Seq<MethodDefModel>, m: int)
    requires
        unique_names(ifc),
        0 <= m < ifc.len(),
    ensures
        resolve_name(ifc, ifc[m].name) == Some(m),
    decreases ifc.len(),
{
    if m == 0 {
    } else {
        assert(ifc[0].name != ifc[m].name);
        let tail = ifc.drop_first();
        assert forall|i: int, j: int| 0 <= i < j < tail.len() implies tail[i].name != tail[j].name by {
            assert(tail[i] == ifc[i + 1]);
            assert(tail[j] == ifc[j + 1]);
        }
        assert(tail[m - 1] == ifc[m]);
        lemma_resolve_name_finds(tail, m - 1);
    }
}

/// Appending a method to the end of an interface preserves the index and the
/// declaration of every method that was already there, and so preserves the
/// wire compatibility of every previously declared method: an index that
/// resolved before resolves to the same declaration after.
pub proof fn lemma_append_preserves_indices(
    ifc: Seq<MethodDefModel>,
    added: MethodDefModel,
    num: u32,
)
    requires
        resolve_num(ifc, num) is Some,
    ensures
        resolve_num(ifc.push(added), num) == resolve_num(ifc, num),
        ifc.push(added)[resolve_num(ifc, num).unwrap()] == ifc[resolve_num(ifc, num).unwrap()],
{
}

/// Appending a method whose name is new also preserves resolution by name:
/// a name that resolved before resolves to the same index after, and a name
/// that missed still misses unless it is the added method's own name.
pub proof fn lemma_append_preserves_name_resolution(
    ifc: Seq<MethodDefModel>,
    added: MethodDefModel,
    name: Seq<char>,
)
    requires
        name != added.name,
    ensures
        resolve_name(ifc.push(added), name) == resolve_name(ifc, name),
    decreases ifc.len(),
{
    if ifc.len() == 0 {
        assert(ifc.push(added)[0] == added);
        assert(ifc.push(added).drop_first() =~= Seq::<MethodDefModel>::empty());
    } else {
        assert(ifc.push(added).drop_first() =~= ifc.drop_first().push(added));
        lemma_append_preserves_name_resolution(ifc.drop_first(), added, name);
    }
}

} // verus!
