//! The registry of imported interface functions: for each interface name,
//! the functions imported under it, each with its function index in the
//! emitted module and its declared argument arity. The bootstrap walks this
//! registry to register one script module per interface; glue bodies look
//! call targets up in it.

use vstd::prelude::*;

verus! {

/// One imported function: its name, its index in the function index space,
/// and its argument arity at the interface level.
#[derive(Debug)]
pub struct ImportEntry {
    pub func_name: String,
    pub index: u32,
    pub num_args: u32,
}

/// The mathematical value of an [`ImportEntry`].
#[verifier::ext_equal]
pub ghost struct EntryView {
    pub func_name: Seq<char>,
    pub index: u32,
    pub num_args: u32,
}

impl View for ImportEntry {
    type V = EntryView;

    open spec fn view(&self) -> EntryView {
        EntryView { func_name: self.func_name@, index: self.index, num_args: self.num_args }
    }
}

/// The functions imported under one interface name.
#[derive(Debug)]
pub struct ImportModule {
    pub module_name: String,
    pub funcs: Vec<ImportEntry>,
}

/// The mathematical value of an [`ImportModule`].
#[verifier::ext_equal]
pub ghost struct ModuleView {
    pub module_name: Seq<char>,
    pub funcs: Seq<EntryView>,
}

impl View for ImportModule {
    type V = ModuleView;

    open spec fn view(&self) -> ModuleView {
        ModuleView {
            module_name: self.module_name@,
            funcs: self.funcs@.map_values(|e: ImportEntry| e@),
        }
    }
}

/// The registry of all imported functions, grouped by interface, in
/// registration order.
#[derive(Debug)]
pub struct ImportMap {
    pub modules: Vec<ImportModule>,
}

impl View for ImportMap {
    type V = Seq<ModuleView>;

    open spec fn view(&self) -> Seq<ModuleView> {
        self.modules@.map_values(|m: ImportModule| m@)
    }
}

/// The first module named `name`, if any.
pub open spec fn find_module(ms: Seq<ModuleView>, name: Seq<char>) -> Option<ModuleView>
    decreases ms.len(),
{
    if ms.len() == 0 {
        Option::None
    } else if ms[0].module_name == name {
        Option::Some(ms[0])
    } else {
        find_module(ms.drop_first(), name)
    }
}

/// The first entry named `name`, if any.
pub open spec fn find_func(fs: Seq<EntryView>, name: Seq<char>) -> Option<EntryView>
    decreases fs.len(),
{
    if fs.len() == 0 {
        Option::None
    } else if fs[0].func_name == name {
        Option::Some(fs[0])
    } else {
        find_func(fs.drop_first(), name)
    }
}

/// The sum of group sizes.
pub open spec fn total_funcs(ms: Seq<ModuleView>) -> nat
    decreases ms.len(),
{
    if ms.len() == 0 {
        0
    } else {
        total_funcs(ms.drop_last()) + ms.last().funcs.len()
    }
}

impl ImportMap {
    /// The entry registered for `(module, func)`, if any: its name, its
    /// function index and its declared arity.
    pub open spec fn spec_lookup_entry(&self, module: Seq<char>, func: Seq<char>) -> Option<
        EntryView,
    > {
        match find_module(self@, module) {
            Option::None => Option::None,
            Option::Some(m) => find_func(m.funcs, func),
        }
    }

    /// The function index registered for `(module, func)`, if any.
    pub open spec fn spec_lookup(&self, module: Seq<char>, func: Seq<char>) -> Option<u32> {
        match self.spec_lookup_entry(module, func) {
            Option::None => Option::None,
            Option::Some(e) => Option::Some(e.index),
        }
    }

    /// Every registered function index is below `n`.
    pub open spec fn indices_lt(&self, n: u32) -> bool {
        forall|i: int, j: int|
            0 <= i < self@.len() && 0 <= j < self@[i].funcs.len() ==> (#[trigger] self@[i].funcs[j]).index
                < n
    }

    /// The number of registered functions, over all interfaces.
    pub open spec fn spec_total(&self) -> nat {
        total_funcs(self@)
    }

    /// Create an empty registry.
    pub fn new() -> (r: Self)
        ensures
            r@ =~= Seq::<ModuleView>::empty(),
    {
        ImportMap { modules: Vec::new() }
    }

    /// Look the function index of `(module, func)` up.
    pub fn lookup(&self, module: &str, func: &str) -> (r: Option<u32>)
        ensures
            r == self.spec_lookup(module@, func@),
    {
        let ghost ms = self@;
        proof {
            assert(ms.skip(0) =~= ms);
        }
        let mut i: usize = 0;
        while i < self.modules.len()
            invariant
                ms == self@,
                self.modules@.len() == ms.len(),
                i <= ms.len(),
                find_module(ms, module@) == find_module(ms.skip(i as int), module@),
            decreases ms.len() - i,
        {
            proof {
                assert(ms.skip(i as int)[0] == ms[i as int]);
                assert(ms.skip(i as int).drop_first() =~= ms.skip(i + 1));
            }
            if str_eq(self.modules[i].module_name.as_str(), module) {
                assert(find_module(ms, module@) == Option::Some(ms[i as int]));
                let fs = &self.modules[i].funcs;
                let ghost fsv = ms[i as int].funcs;
                assert(fsv == fs@.map_values(|e: ImportEntry| e@));
                proof {
                    assert(fsv.skip(0) =~= fsv);
                }
                let mut j: usize = 0;
                while j < fs.len()
                    invariant
                        fsv == fs@.map_values(|e: ImportEntry| e@),
                        j <= fsv.len(),
                        fs@.len() == fsv.len(),
                        find_func(fsv, func@) == find_func(fsv.skip(j as int), func@),
                    decreases fsv.len() - j,
                {
                    proof {
                        assert(fsv.skip(j as int)[0] == fsv[j as int]);
                        assert(fsv.skip(j as int).drop_first() =~= fsv.skip(j + 1));
                    }
                    if str_eq(fs[j].func_name.as_str(), func) {
                        assert(find_func(fsv, func@) == Option::Some(fsv[j as int]));
                        return Option::Some(fs[j].index);
                    }
                    j += 1;
                }
                assert(fsv.skip(fsv.len() as int) =~= Seq::<EntryView>::empty());
                return Option::None;
            }
            i += 1;
        }
        assert(ms.skip(ms.len() as int) =~= Seq::<ModuleView>::empty());
        Option::None
    }

    /// Register `(module, func)` with index `index` and arity `num_args`.
    /// The pair must be new; the entry joins the interface's group if the
    /// interface is already known, else a new group is appended.
    pub fn insert(&mut self, module: &str, func: &str, index: u32, num_args: u32)
        requires
            old(self).spec_lookup(module@, func@) is None,
        ensures
            final(self).spec_lookup_entry(module@, func@) == Option::Some(
                EntryView { func_name: func@, index, num_args },
            ),
            (match find_module(old(self)@, module@) {
                Option::None => final(self)@ =~= old(self)@.push(
                    ModuleView {
                        module_name: module@,
                        funcs: seq![
                            EntryView { func_name: func@, index, num_args },
                        ],
                    },
                ),
                Option::Some(_) => exists|i: int|
                    0 <= i < old(self)@.len() && (#[trigger] old(self)@[i]).module_name == module@
                        && final(self)@ =~= old(self)@.update(
                        i,
                        ModuleView {
                            module_name: module@,
                            funcs: old(self)@[i].funcs.push(
                                EntryView { func_name: func@, index, num_args },
                            ),
                        },
                    ),
            }),
            final(self).spec_total() == old(self).spec_total() + 1,
            forall|n: u32| old(self).indices_lt(n) && index < n ==> final(self).indices_lt(n),
    {
        let ghost ms = self@;
        proof {
            assert(ms.skip(0) =~= ms);
        }
        let n = self.modules.len();
        let mut i: usize = 0;
        while i < n
            invariant
                self == old(self),
                ms == self@,
                n == ms.len(),
                self.modules@.len() == n,
                i <= n,
                find_module(ms, module@) == find_module(ms.skip(i as int), module@),
                forall|k: int| 0 <= k < i ==> (#[trigger] ms[k]).module_name != module@,
            decreases n - i,
        {
            proof {
                assert(ms.skip(i as int)[0] == ms[i as int]);
                assert(ms.skip(i as int).drop_first() =~= ms.skip(i + 1));
            }
            if str_eq(self.modules[i].module_name.as_str(), module) {
                assert(find_module(ms, module@) == Option::Some(ms[i as int]));
                let mut m = self.modules.remove(i);
                let entry = ImportEntry { func_name: func.to_owned(), index, num_args };
                let ghost ev = entry@;
                m.funcs.push(entry);
                self.modules.insert(i, m);
                let ghost mv = ModuleView {
                    module_name: module@,
                    funcs: ms[i as int].funcs.push(ev),
                };
                proof {
                    assert(mv.funcs =~= ms[i as int].funcs.push(ev));
                    assert(self@ =~~= ms.update(i as int, mv));
                    lemma_find_module_update(ms, i as int, mv, module@);
                    assert(find_func(ms[i as int].funcs, func@) is None) by {
                        if find_func(ms[i as int].funcs, func@) is Some {
                            assert(old(self).spec_lookup(module@, func@) is Some);
                        }
                    }
                    lemma_find_func_push(ms[i as int].funcs, ev, func@);
                    lemma_total_update(ms, i as int, mv);
                }
                return ;
            }
            i += 1;
        }
        assert(ms.skip(ms.len() as int) =~= Seq::<ModuleView>::empty());
        assert(find_module(ms, module@) is None);
        let entry = ImportEntry { func_name: func.to_owned(), index, num_args };
        let ghost ev = entry@;
        let mut fs: Vec<ImportEntry> = Vec::new();
        fs.push(entry);
        let m = ImportModule { module_name: module.to_owned(), funcs: fs };
        self.modules.push(m);
        let ghost mv = ModuleView { module_name: module@, funcs: seq![ev] };
        proof {
            assert(self@ =~~= ms.push(mv));
            lemma_find_module_push(ms, mv, module@);
            lemma_total_push(ms, mv);
            assert(find_func(mv.funcs, func@) == Option::Some(ev));
        }
    }
}

/// Decide whether two strings have equal contents.
pub fn str_eq(a: &str, b: &str) -> (r: bool)
    ensures
        r == (a@ == b@),
{
    let sa = a.to_owned();
    let sb = b.to_owned();
    sa.eq(&sb)
}

proof fn lemma_find_func_push(fs: Seq<EntryView>, e: EntryView, name: Seq<char>)
    requires
        find_func(fs, name) is None,
        e.func_name == name,
    ensures
        find_func(fs.push(e), name) == Option::Some(e),
    decreases fs.len(),
{
    if fs.len() == 0 {
        assert(fs.push(e)[0] == e);
    } else {
        assert(fs.push(e)[0] == fs[0]);
        assert(fs.push(e).drop_first() =~= fs.drop_first().push(e));
        lemma_find_func_push(fs.drop_first(), e, name);
    }
}

proof fn lemma_find_module_push(ms: Seq<ModuleView>, m: ModuleView, name: Seq<char>)
    requires
        find_module(ms, name) is None,
        m.module_name == name,
    ensures
        find_module(ms.push(m), name) == Option::Some(m),
    decreases ms.len(),
{
    if ms.len() == 0 {
        assert(ms.push(m)[0] == m);
    } else {
        assert(ms.push(m)[0] == ms[0]);
        assert(ms.push(m).drop_first() =~= ms.drop_first().push(m));
        lemma_find_module_push(ms.drop_first(), m, name);
    }
}

proof fn lemma_find_module_update(ms: Seq<ModuleView>, i: int, m: ModuleView, name: Seq<char>)
    requires
        0 <= i < ms.len(),
        forall|k: int| 0 <= k < i ==> (#[trigger] ms[k]).module_name != name,
        ms[i].module_name == name,
        m.module_name == name,
    ensures
        find_module(ms.update(i, m), name) == Option::Some(m),
    decreases i,
{
    if i == 0 {
        assert(ms.update(i, m)[0] == m);
    } else {
        assert(ms.update(i, m)[0] == ms[0]);
        assert(ms[0].module_name != name);
        assert(ms.update(i, m).drop_first() =~= ms.drop_first().update(i - 1, m));
        assert(forall|k: int|
            0 <= k < i - 1 ==> (#[trigger] ms.drop_first()[k]).module_name != name);
        lemma_find_module_update(ms.drop_first(), i - 1, m, name);
    }
}

proof fn lemma_total_push(ms: Seq<ModuleView>, m: ModuleView)
    requires
        m.funcs.len() == 1,
    ensures
        total_funcs(ms.push(m)) == total_funcs(ms) + 1,
{
    assert(ms.push(m).drop_last() =~= ms);
}

proof fn lemma_total_update(ms: Seq<ModuleView>, i: int, m: ModuleView)
    requires
        0 <= i < ms.len(),
        m.funcs.len() == ms[i].funcs.len() + 1,
    ensures
        total_funcs(ms.update(i, m)) == total_funcs(ms) + 1,
    decreases ms.len(),
{
    if i == ms.len() - 1 {
        assert(ms.update(i, m).last() == m);
        assert(ms.update(i, m).drop_last() =~= ms.drop_last());
    } else {
        assert(ms.update(i, m).last() == ms.last());
        assert(ms.update(i, m).drop_last() =~= ms.drop_last().update(i, m));
        lemma_total_update(ms.drop_last(), i, m);
    }
}

} // verus!
