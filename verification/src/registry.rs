//! Registration into the model: a module or a class is created where it is
//! absent, and a function is added unless its container already holds one
//! with the same name and parameters.

use vstd::prelude::*;
use vstd::string::*;
use crate::model::{same_signature, ClassView, FunctionView, ModuleView, TsClass, TsFunction, TsModule};
use crate::resolve::opt_text;
use crate::text::str_eq;

verus! {

/// Some module of `ms` is named `name`.
pub open spec fn has_module(ms: Seq<ModuleView>, name: Seq<char>) -> bool {
    exists|i: int| 0 <= i < ms.len() && (#[trigger] ms[i]).name == name
}

/// `i` is the position of the first module of `ms` named `name`.
pub open spec fn is_first_module(ms: Seq<ModuleView>, name: Seq<char>, i: int) -> bool {
    &&& 0 <= i < ms.len()
    &&& ms[i].name == name
    &&& forall|j: int| 0 <= j < i ==> (#[trigger] ms[j]).name != name
}

/// The position of the first module named `name`, where there is one.
pub open spec fn module_position(ms: Seq<ModuleView>, name: Seq<char>) -> int {
    choose|i: int| is_first_module(ms, name, i)
}

/// Some class of `cs` is named `name`.
pub open spec fn has_class(cs: Seq<ClassView>, name: Seq<char>) -> bool {
    exists|i: int| 0 <= i < cs.len() && (#[trigger] cs[i]).name == name
}

/// `i` is the position of the first class of `cs` named `name`.
pub open spec fn is_first_class(cs: Seq<ClassView>, name: Seq<char>, i: int) -> bool {
    &&& 0 <= i < cs.len()
    &&& cs[i].name == name
    &&& forall|j: int| 0 <= j < i ==> (#[trigger] cs[j]).name != name
}

/// The position of the first class named `name`, where there is one.
pub open spec fn class_position(cs: Seq<ClassView>, name: Seq<char>) -> int {
    choose|i: int| is_first_class(cs, name, i)
}

/// Some function of `fs` has the name and the parameters of `f`.
pub open spec fn has_function(fs: Seq<FunctionView>, f: FunctionView) -> bool {
    exists|i: int| 0 <= i < fs.len() && same_signature(#[trigger] fs[i], f)
}

/// A module without functions and classes.
pub open spec fn empty_module(name: Seq<char>) -> ModuleView {
    ModuleView { name, functions: Seq::empty(), classes: Seq::empty() }
}

/// A class without methods.
pub open spec fn empty_class(name: Seq<char>) -> ClassView {
    ClassView { name, methods: Seq::empty() }
}

/// `fs`, with `f` at its end unless it holds a function with the same name
/// and parameters.
pub open spec fn with_entry(fs: Seq<FunctionView>, f: FunctionView) -> Seq<FunctionView> {
    if has_function(fs, f) {
        fs
    } else {
        fs.push(f)
    }
}

/// The model after the module `name` was registered: unchanged where it has
/// such a module, else with an empty one at its end.
pub open spec fn with_module(ms: Seq<ModuleView>, name: Seq<char>) -> Seq<ModuleView> {
    if has_module(ms, name) {
        ms
    } else {
        ms.push(empty_module(name))
    }
}

/// The classes after the class `name` was registered among them.
pub open spec fn with_class_in(cs: Seq<ClassView>, name: Seq<char>) -> Seq<ClassView> {
    if has_class(cs, name) {
        cs
    } else {
        cs.push(empty_class(name))
    }
}

/// The model after the class `class` was registered in the module `module`:
/// the module is registered first, and its first bearer gets the class
/// unless it has one of that name.
pub open spec fn with_class(ms: Seq<ModuleView>, module: Seq<char>, class: Seq<char>) -> Seq<ModuleView> {
    let ms1 = with_module(ms, module);
    let i = module_position(ms1, module);
    ms1.update(
        i,
        ModuleView {
            name: ms1[i].name,
            functions: ms1[i].functions,
            classes: with_class_in(ms1[i].classes, class),
        },
    )
}

/// The classes after `f` was registered as a method of the first class named `class`.
pub open spec fn with_method_in(cs: Seq<ClassView>, class: Seq<char>, f: FunctionView) -> Seq<ClassView> {
    let j = class_position(cs, class);
    cs.update(j, ClassView { name: cs[j].name, methods: with_entry(cs[j].methods, f) })
}

/// The model after `f` was registered in the module `module`, as a free
/// function (`class` is `None`) or as a method of `class`: module and class
/// are registered first, and `f` is added at the end of its container unless
/// that holds a function with the same name and parameters.
pub open spec fn with_function(
    ms: Seq<ModuleView>,
    module: Seq<char>,
    class: Option<Seq<char>>,
    f: FunctionView,
) -> Seq<ModuleView> {
    match class {
        None => {
            let ms1 = with_module(ms, module);
            let i = module_position(ms1, module);
            ms1.update(
                i,
                ModuleView {
                    name: ms1[i].name,
                    functions: with_entry(ms1[i].functions, f),
                    classes: ms1[i].classes,
                },
            )
        },
        Some(c) => {
            let ms1 = with_class(ms, module, c);
            let i = module_position(ms1, module);
            ms1.update(
                i,
                ModuleView {
                    name: ms1[i].name,
                    functions: ms1[i].functions,
                    classes: with_method_in(ms1[i].classes, c, f),
                },
            )
        },
    }
}

/// There is one first module of a name at most.
pub proof fn lemma_first_module_unique(ms: Seq<ModuleView>, name: Seq<char>, i: int)
    requires
        is_first_module(ms, name, i),
    ensures
        has_module(ms, name),
        module_position(ms, name) == i,
{
    let k = module_position(ms, name);
    assert(is_first_module(ms, name, k));
    if k < i {
        assert(ms[k].name != name);
    }
    if i < k {
        assert(ms[i].name != name);
    }
}

/// There is one first class of a name at most.
pub proof fn lemma_first_class_unique(cs: Seq<ClassView>, name: Seq<char>, i: int)
    requires
        is_first_class(cs, name, i),
    ensures
        has_class(cs, name),
        class_position(cs, name) == i,
{
    let k = class_position(cs, name);
    assert(is_first_class(cs, name, k));
    if k < i {
        assert(cs[k].name != name);
    }
    if i < k {
        assert(cs[i].name != name);
    }
}

/// A first module of a name stays the first of that name where the modules
/// before it stay as they are and the module at its place keeps its name.
pub proof fn lemma_first_module_kept(
    before: Seq<ModuleView>,
    after: Seq<ModuleView>,
    name: Seq<char>,
    i: int,
)
    requires
        is_first_module(before, name, i),
        after.len() == before.len(),
        after[i].name == name,
        forall|k: int| 0 <= k < i ==> after[k] == before[k],
    ensures
        is_first_module(after, name, i),
        has_module(after, name),
        module_position(after, name) == i,
{
    assert forall|k: int| 0 <= k < i implies (#[trigger] after[k]).name != name by {
        assert(after[k] == before[k]);
    }
    lemma_first_module_unique(after, name, i);
}

/// A first class of a name stays the first of that name where the classes
/// before it stay as they are and the class at its place keeps its name.
pub proof fn lemma_first_class_kept(
    before: Seq<ClassView>,
    after: Seq<ClassView>,
    name: Seq<char>,
    i: int,
)
    requires
        is_first_class(before, name, i),
        after.len() == before.len(),
        after[i].name == name,
        forall|k: int| 0 <= k < i ==> after[k] == before[k],
    ensures
        is_first_class(after, name, i),
        has_class(after, name),
        class_position(after, name) == i,
{
    assert forall|k: int| 0 <= k < i implies (#[trigger] after[k]).name != name by {
        assert(after[k] == before[k]);
    }
    lemma_first_class_unique(after, name, i);
}

/// The position of the first module named `name`.
pub fn find_module(modules: &Vec<TsModule>, name: &str) -> (r: Option<usize>)
    ensures
        match r {
            Some(i) => is_first_module(modules.deep_view(), name@, i as int),
            None => !has_module(modules.deep_view(), name@),
        },
{
    let mut i: usize = 0;
    while i < modules.len()
        invariant
            i <= modules.len(),
            forall|j: int| 0 <= j < i ==> (#[trigger] modules.deep_view()[j]).name != name@,
        decreases modules.len() - i,
    {
        if str_eq(modules[i].name.as_str(), name) {
            return Some(i);
        }
        i += 1;
    }
    None
}

/// The position of the first class named `name`.
pub fn find_class(classes: &Vec<TsClass>, name: &str) -> (r: Option<usize>)
    ensures
        match r {
            Some(i) => is_first_class(classes.deep_view(), name@, i as int),
            None => !has_class(classes.deep_view(), name@),
        },
{
    let mut i: usize = 0;
    while i < classes.len()
        invariant
            i <= classes.len(),
            forall|j: int| 0 <= j < i ==> (#[trigger] classes.deep_view()[j]).name != name@,
        decreases classes.len() - i,
    {
        if str_eq(classes[i].name.as_str(), name) {
            return Some(i);
        }
        i += 1;
    }
    None
}

/// Whether `functions` holds a function with the name and parameters of `f`.
pub fn contains_function(functions: &Vec<TsFunction>, f: &TsFunction) -> (r: bool)
    ensures
        r == has_function(functions.deep_view(), f@),
{
    let mut i: usize = 0;
    while i < functions.len()
        invariant
            i <= functions.len(),
            forall|j: int| 0 <= j < i ==> !same_signature(#[trigger] functions.deep_view()[j], f@),
        decreases functions.len() - i,
    {
        if functions[i].same_signature(f) {
            assert(same_signature(functions.deep_view()[i as int], f@));
            return true;
        }
        i += 1;
    }
    false
}

/// Adds `f` at the end of `functions` unless they hold a function with its
/// name and parameters.
pub fn add_function(functions: &mut Vec<TsFunction>, f: TsFunction)
    ensures
        final(functions).deep_view() == with_entry(old(functions).deep_view(), f@),
{
    if !contains_function(functions, &f) {
        let ghost before = functions.deep_view();
        functions.push(f);
        assert(functions.deep_view() =~= before.push(f@));
    }
}

/// Registers the module `name` and gives the position of its first bearer.
pub fn register_module(modules: &mut Vec<TsModule>, name: &str) -> (index: usize)
    ensures
        final(modules).deep_view() == with_module(old(modules).deep_view(), name@),
        is_first_module(final(modules).deep_view(), name@, index as int),
{
    match find_module(modules, name) {
        Some(i) => i,
        None => {
            let ghost before = modules.deep_view();
            let index = modules.len();
            let module = TsModule {
                name: String::from_str(name),
                functions: Vec::new(),
                classes: Vec::new(),
            };
            assert(module@.functions =~= Seq::empty());
            assert(module@.classes =~= Seq::empty());
            modules.push(module);
            assert(modules.deep_view() =~= before.push(empty_module(name@)));
            index
        },
    }
}

/// Registers the class `name` among `classes` and gives the position of its first bearer.
fn register_class_in(classes: &mut Vec<TsClass>, name: &str) -> (index: usize)
    ensures
        final(classes).deep_view() == with_class_in(old(classes).deep_view(), name@),
        is_first_class(final(classes).deep_view(), name@, index as int),
{
    match find_class(classes, name) {
        Some(i) => i,
        None => {
            let ghost before = classes.deep_view();
            let index = classes.len();
            let class = TsClass { name: String::from_str(name), methods: Vec::new() };
            assert(class@.methods =~= Seq::empty());
            classes.push(class);
            assert(classes.deep_view() =~= before.push(empty_class(name@)));
            index
        },
    }
}

/// Registers the class `name` in the module `module`, which is registered first.
pub fn register_class(modules: &mut Vec<TsModule>, module: &str, name: &str)
    ensures
        final(modules).deep_view() == with_class(old(modules).deep_view(), module@, name@),
{
    let i = register_module(modules, module);
    let ghost ms1 = modules.deep_view();
    proof {
        lemma_first_module_unique(ms1, module@, i as int);
    }
    register_class_in(&mut modules[i].classes, name);
    assert(modules.deep_view() =~= with_class(old(modules).deep_view(), module@, name@));
}

/// Registers `function` in the module `module`, as a free function or as a
/// method of `class`. Module and class are registered first. A function with
/// the name and parameters of one that its container already holds is left
/// out, and the earlier one stays as it is.
pub fn register_function(
    modules: &mut Vec<TsModule>,
    module: &str,
    class: Option<&str>,
    function: TsFunction,
)
    ensures
        final(modules).deep_view() == with_function(
            old(modules).deep_view(),
            module@,
            opt_text(class),
            function@,
        ),
{
    match class {
        None => {
            let i = register_module(modules, module);
            let ghost ms1 = modules.deep_view();
            proof {
                lemma_first_module_unique(ms1, module@, i as int);
            }
            add_function(&mut modules[i].functions, function);
            assert(modules.deep_view() =~= with_function(
                old(modules).deep_view(),
                module@,
                None,
                function@,
            ));
        },
        Some(c) => {
            let i = register_module(modules, module);
            let ghost ms0 = modules.deep_view();
            proof {
                lemma_first_module_unique(ms0, module@, i as int);
            }
            let j = register_class_in(&mut modules[i].classes, c);
            let ghost ms1 = modules.deep_view();
            proof {
                assert(ms1 =~= with_class(old(modules).deep_view(), module@, c@));
                lemma_first_module_kept(ms0, ms1, module@, i as int);
                lemma_first_class_unique(ms1[i as int].classes, c@, j as int);
            }
            add_function(&mut modules[i].classes[j].methods, function);
            proof {
                let ms2 = modules.deep_view();
                let cs1 = ms1[i as int].classes;
                let cs2 = ms2[i as int].classes;
                assert(cs2[j as int].methods == with_entry(cs1[j as int].methods, function@));
                assert(cs2[j as int].name == cs1[j as int].name);
                assert(cs2 =~= with_method_in(cs1, c@, function@));
                assert(ms2[i as int].name == ms1[i as int].name);
                assert(ms2[i as int].functions == ms1[i as int].functions);
            }
            assert(modules.deep_view() =~= with_function(
                old(modules).deep_view(),
                module@,
                Some(c@),
                function@,
            ));
        },
    }
}

/// No two functions of `fs` have the same name and parameters.
pub open spec fn distinct_entries(fs: Seq<FunctionView>) -> bool {
    forall|i: int, j: int|
        0 <= i < j < fs.len() ==> !same_signature(#[trigger] fs[i], #[trigger] fs[j])
}

/// The function at position `k` of `fs` has the name and parameters of `f`,
/// and no other function of `fs` has.
pub open spec fn is_only_match(fs: Seq<FunctionView>, f: FunctionView, k: int) -> bool {
    &&& 0 <= k < fs.len()
    &&& same_signature(fs[k], f)
    &&& forall|j: int| 0 <= j < fs.len() && j != k ==> !same_signature(#[trigger] fs[j], f)
}

/// Exactly one function of `fs` has the name and parameters of `f`.
pub open spec fn exactly_one(fs: Seq<FunctionView>, f: FunctionView) -> bool {
    exists|k: int| is_only_match(fs, f, k)
}

/// No container of the model holds two functions with the same name and parameters.
pub open spec fn deduped(ms: Seq<ModuleView>) -> bool {
    forall|m: int|
        0 <= m < ms.len() ==> {
            &&& distinct_entries((#[trigger] ms[m]).functions)
            &&& forall|c: int|
                0 <= c < ms[m].classes.len() ==> distinct_entries(
                    (#[trigger] ms[m].classes[c]).methods,
                )
        }
}

/// The functions that a registration in `module`, as a free function or as a
/// method of `class`, is held against: those of the first module of that
/// name, or those of its first class of that name.
pub open spec fn container(ms: Seq<ModuleView>, module: Seq<char>, class: Option<Seq<char>>) -> Seq<
    FunctionView,
> {
    let m = ms[module_position(ms, module)];
    match class {
        None => m.functions,
        Some(c) => m.classes[class_position(m.classes, c)].methods,
    }
}

/// Among modules of which one is named `name` there is a first of that name.
proof fn lemma_first_module_exists(ms: Seq<ModuleView>, name: Seq<char>, i: int)
    requires
        0 <= i < ms.len(),
        ms[i].name == name,
    ensures
        exists|k: int| is_first_module(ms, name, k),
    decreases i,
{
    if exists|j: int| 0 <= j < i && (#[trigger] ms[j]).name == name {
        let j = choose|j: int| 0 <= j < i && (#[trigger] ms[j]).name == name;
        lemma_first_module_exists(ms, name, j);
    } else {
        assert(is_first_module(ms, name, i));
    }
}

/// Among classes of which one is named `name` there is a first of that name.
proof fn lemma_first_class_exists(cs: Seq<ClassView>, name: Seq<char>, i: int)
    requires
        0 <= i < cs.len(),
        cs[i].name == name,
    ensures
        exists|k: int| is_first_class(cs, name, k),
    decreases i,
{
    if exists|j: int| 0 <= j < i && (#[trigger] cs[j]).name == name {
        let j = choose|j: int| 0 <= j < i && (#[trigger] cs[j]).name == name;
        lemma_first_class_exists(cs, name, j);
    } else {
        assert(is_first_class(cs, name, i));
    }
}

/// After a module was registered the model has a first module of its name.
pub proof fn lemma_with_module_first(ms: Seq<ModuleView>, name: Seq<char>)
    ensures
        is_first_module(with_module(ms, name), name, module_position(with_module(ms, name), name)),
        has_module(with_module(ms, name), name),
        with_module(with_module(ms, name), name) == with_module(ms, name),
{
    let r = with_module(ms, name);
    if has_module(ms, name) {
        let i = choose|i: int| 0 <= i < ms.len() && (#[trigger] ms[i]).name == name;
        lemma_first_module_exists(ms, name, i);
    } else {
        assert(is_first_module(r, name, ms.len() as int));
        assert(r[ms.len() as int].name == name);
    }
}

/// After a class was registered among classes they have a first of its name.
pub proof fn lemma_with_class_first(cs: Seq<ClassView>, name: Seq<char>)
    ensures
        is_first_class(with_class_in(cs, name), name, class_position(with_class_in(cs, name), name)),
        has_class(with_class_in(cs, name), name),
        with_class_in(with_class_in(cs, name), name) == with_class_in(cs, name),
{
    let r = with_class_in(cs, name);
    if has_class(cs, name) {
        let i = choose|i: int| 0 <= i < cs.len() && (#[trigger] cs[i]).name == name;
        lemma_first_class_exists(cs, name, i);
    } else {
        assert(is_first_class(r, name, cs.len() as int));
        assert(r[cs.len() as int].name == name);
    }
}

/// Adding a function a second time changes nothing.
pub proof fn lemma_with_entry_idempotent(fs: Seq<FunctionView>, f: FunctionView, g: FunctionView)
    requires
        same_signature(f, g),
    ensures
        with_entry(with_entry(fs, f), g) == with_entry(fs, f),
{
    let r = with_entry(fs, f);
    if has_function(fs, f) {
        let k = choose|k: int| 0 <= k < fs.len() && same_signature(#[trigger] fs[k], f);
        assert(same_signature(r[k], g));
    } else {
        assert(same_signature(r[fs.len() as int], g));
    }
}

/// Among functions of which no two are duplicates, an added function is
/// there exactly once afterwards, and still no two are duplicates.
pub proof fn lemma_with_entry_once(fs: Seq<FunctionView>, f: FunctionView)
    requires
        distinct_entries(fs),
    ensures
        distinct_entries(with_entry(fs, f)),
        exactly_one(with_entry(fs, f), f),
{
    let r = with_entry(fs, f);
    if has_function(fs, f) {
        let k = choose|k: int| 0 <= k < fs.len() && same_signature(#[trigger] fs[k], f);
        assert forall|j: int| 0 <= j < fs.len() && j != k implies !same_signature(
            #[trigger] fs[j],
            f,
        ) by {
            if same_signature(fs[j], f) {
                if j < k {
                    assert(!same_signature(fs[j], fs[k]));
                } else {
                    assert(!same_signature(fs[k], fs[j]));
                }
            }
        }
        assert(is_only_match(r, f, k));
    } else {
        assert forall|i: int, j: int| 0 <= i < j < r.len() implies !same_signature(
            #[trigger] r[i],
            #[trigger] r[j],
        ) by {
            if j == fs.len() {
                assert(r[i] == fs[i]);
                assert(!same_signature(fs[i], f));
            } else {
                assert(r[i] == fs[i] && r[j] == fs[j]);
            }
        }
        assert forall|j: int| 0 <= j < r.len() && j != fs.len() implies !same_signature(
            #[trigger] r[j],
            f,
        ) by {
            assert(r[j] == fs[j]);
        }
        assert(is_only_match(r, f, fs.len() as int));
    }
}

/// Registering a module keeps a model free of duplicates.
pub proof fn lemma_with_module_deduped(ms: Seq<ModuleView>, name: Seq<char>)
    requires
        deduped(ms),
    ensures
        deduped(with_module(ms, name)),
{
    let r = with_module(ms, name);
    assert forall|m: int| 0 <= m < r.len() implies {
        &&& distinct_entries((#[trigger] r[m]).functions)
        &&& forall|c: int|
            0 <= c < r[m].classes.len() ==> distinct_entries((#[trigger] r[m].classes[c]).methods)
    } by {
        if m < ms.len() {
            assert(r[m] == ms[m]);
        }
    }
}

/// Registering a class keeps a model free of duplicates, and the model has
/// the class in the first module of that name afterwards.
pub proof fn lemma_with_class_deduped(ms: Seq<ModuleView>, module: Seq<char>, class: Seq<char>)
    requires
        deduped(ms),
    ensures
        deduped(with_class(ms, module, class)),
        is_first_module(
            with_class(ms, module, class),
            module,
            module_position(with_class(ms, module, class), module),
        ),
        is_first_class(
            with_class(ms, module, class)[module_position(
                with_class(ms, module, class),
                module,
            )].classes,
            class,
            class_position(
                with_class(ms, module, class)[module_position(
                    with_class(ms, module, class),
                    module,
                )].classes,
                class,
            ),
        ),
{
    let ms1 = with_module(ms, module);
    lemma_with_module_deduped(ms, module);
    lemma_with_module_first(ms, module);
    let i = module_position(ms1, module);
    let r = with_class(ms, module, class);
    lemma_with_class_first(ms1[i].classes, class);
    lemma_first_module_kept(ms1, r, module, i);
    assert forall|m: int| 0 <= m < r.len() implies {
        &&& distinct_entries((#[trigger] r[m]).functions)
        &&& forall|c: int|
            0 <= c < r[m].classes.len() ==> distinct_entries((#[trigger] r[m].classes[c]).methods)
    } by {
        if m != i {
            assert(r[m] == ms1[m]);
        } else {
            assert(r[m].functions == ms1[m].functions);
            assert forall|c: int| 0 <= c < r[m].classes.len() implies distinct_entries(
                (#[trigger] r[m].classes[c]).methods,
            ) by {
                if c < ms1[m].classes.len() {
                    assert(r[m].classes[c] == ms1[m].classes[c]);
                }
            }
        }
    }
}

/// After the registration of a function, the container that it was held
/// against is the one from before the registration with the function added,
/// where "before" counts module and class as registered already.
pub proof fn lemma_with_function_container(
    ms: Seq<ModuleView>,
    module: Seq<char>,
    class: Option<Seq<char>>,
    f: FunctionView,
)
    ensures
        container(with_function(ms, module, class, f), module, class) == with_entry(
            container(
                match class {
                    None => with_module(ms, module),
                    Some(c) => with_class(ms, module, c),
                },
                module,
                class,
            ),
            f,
        ),
        is_first_module(
            with_function(ms, module, class, f),
            module,
            module_position(with_function(ms, module, class, f), module),
        ),
{
    let r = with_function(ms, module, class, f);
    match class {
        None => {
            let ms1 = with_module(ms, module);
            lemma_with_module_first(ms, module);
            let i = module_position(ms1, module);
            lemma_first_module_kept(ms1, r, module, i);
        },
        Some(c) => {
            let ms0 = with_module(ms, module);
            lemma_with_module_first(ms, module);
            let i = module_position(ms0, module);
            let ms1 = with_class(ms, module, c);
            lemma_with_class_first(ms0[i].classes, c);
            lemma_first_module_kept(ms0, ms1, module, i);
            let cs1 = ms1[i].classes;
            let j = class_position(cs1, c);
            lemma_first_module_kept(ms1, r, module, i);
            let cs2 = r[i].classes;
            assert(cs2 == with_method_in(cs1, c, f));
            lemma_first_class_kept(cs1, cs2, c, j);
        },
    }
}

/// Registering a function twice gives the model that registering it once
/// gives: the second registration, of a function with the name and
/// parameters of the first, changes nothing.
pub proof fn lemma_register_function_idempotent(
    ms: Seq<ModuleView>,
    module: Seq<char>,
    class: Option<Seq<char>>,
    f: FunctionView,
    g: FunctionView,
)
    requires
        same_signature(f, g),
    ensures
        with_function(with_function(ms, module, class, f), module, class, g) == with_function(
            ms,
            module,
            class,
            f,
        ),
{
    let r = with_function(ms, module, class, f);
    lemma_with_function_container(ms, module, class, f);
    let i = module_position(r, module);
    lemma_first_module_unique(r, module, i);
    assert(with_module(r, module) == r);
    match class {
        None => {
            lemma_with_entry_idempotent(container(with_module(ms, module), module, class), f, g);
            assert(with_function(r, module, class, g) =~= r);
        },
        Some(c) => {
            let ms0 = with_module(ms, module);
            lemma_with_module_first(ms, module);
            let ms1 = with_class(ms, module, c);
            lemma_with_class_first(ms0[module_position(ms0, module)].classes, c);
            lemma_first_module_kept(ms0, ms1, module, module_position(ms0, module));
            lemma_first_module_kept(ms1, r, module, module_position(ms0, module));
            let cs1 = ms1[i].classes;
            let j = class_position(cs1, c);
            let cs2 = r[i].classes;
            assert(cs2 == with_method_in(cs1, c, f));
            lemma_first_class_kept(cs1, cs2, c, j);
            assert(with_class_in(cs2, c) == cs2);
            assert(with_class(r, module, c) =~= r);
            lemma_with_entry_idempotent(cs1[j].methods, f, g);
            assert(with_method_in(cs2, c, g) =~= cs2);
            assert(with_function(r, module, class, g) =~= r);
        },
    }
}

/// In a model free of duplicates, a registered function is in its container
/// exactly once afterwards, however often it is registered, and the model is
/// still free of duplicates.
pub proof fn lemma_registered_once(
    ms: Seq<ModuleView>,
    module: Seq<char>,
    class: Option<Seq<char>>,
    f: FunctionView,
)
    requires
        deduped(ms),
    ensures
        exactly_one(container(with_function(ms, module, class, f), module, class), f),
        exactly_one(
            container(
                with_function(with_function(ms, module, class, f), module, class, f),
                module,
                class,
            ),
            f,
        ),
        deduped(with_function(ms, module, class, f)),
{
    let r = with_function(ms, module, class, f);
    lemma_with_function_container(ms, module, class, f);
    lemma_register_function_idempotent(ms, module, class, f, f);
    let base = match class {
        None => with_module(ms, module),
        Some(c) => with_class(ms, module, c),
    };
    let i = module_position(base, module);
    match class {
        None => {
            lemma_with_module_deduped(ms, module);
            lemma_with_module_first(ms, module);
        },
        Some(c) => {
            lemma_with_class_deduped(ms, module, c);
        },
    }
    assert(distinct_entries(base[i].functions));
    let before = container(base, module, class);
    assert(distinct_entries(before)) by {
        match class {
            None => {},
            Some(c) => {
                let j = class_position(base[i].classes, c);
                assert(distinct_entries(base[i].classes[j].methods));
            },
        }
    }
    lemma_with_entry_once(before, f);
    assert forall|m: int| 0 <= m < r.len() implies {
        &&& distinct_entries((#[trigger] r[m]).functions)
        &&& forall|c: int|
            0 <= c < r[m].classes.len() ==> distinct_entries((#[trigger] r[m].classes[c]).methods)
    } by {
        if m != i {
            assert(r[m] == base[m]);
        } else {
            match class {
                None => {
                    assert(r[m].classes == base[m].classes);
                },
                Some(cn) => {
                    let j = class_position(base[i].classes, cn);
                    assert(r[m].functions == base[m].functions);
                    assert forall|c: int| 0 <= c < r[m].classes.len() implies distinct_entries(
                        (#[trigger] r[m].classes[c]).methods,
                    ) by {
                        if c != j {
                            assert(r[m].classes[c] == base[m].classes[c]);
                        }
                    }
                },
            }
        }
    }
}

} // verus!
