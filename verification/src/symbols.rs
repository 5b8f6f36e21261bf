//! The names under which the shim exports the model's functions, and the
//! symbol collector that lists them.

use vstd::prelude::*;
use vstd::string::*;
use crate::model::{ClassView, ModuleView, TsClass, TsModule};
use crate::resolve::opt_text;
use crate::text::str_eq;

verus! {

/// The name of the flat function that stands for a free function (`class`
/// is `None`) or for a method of `class`: `name`, or `Class_name`.
pub open spec fn shim_name(class: Option<Seq<char>>, name: Seq<char>) -> Seq<char> {
    match class {
        Some(c) => c + "_"@ + name,
        None => name,
    }
}

/// The link-visible symbol of a flat function: `_` before its name.
pub open spec fn symbol_name(class: Option<Seq<char>>, name: Seq<char>) -> Seq<char> {
    "_"@ + shim_name(class, name)
}

/// The lists one after another.
pub open spec fn flatten(lists: Seq<Seq<Seq<char>>>) -> Seq<Seq<char>>
    decreases lists.len(),
{
    if lists.len() == 0 {
        Seq::empty()
    } else {
        flatten(lists.drop_last()) + lists.last()
    }
}

/// The symbols of a class: one for each method, in order.
pub open spec fn class_symbols(c: ClassView) -> Seq<Seq<char>> {
    Seq::new(c.methods.len(), |i: int| symbol_name(Some(c.name), c.methods[i].name))
}

/// The symbols of a module: those of its free functions, then those of its
/// classes, each in order.
pub open spec fn module_symbols(m: ModuleView) -> Seq<Seq<char>> {
    Seq::new(m.functions.len(), |i: int| symbol_name(None, m.functions[i].name)) + flatten(
        Seq::new(m.classes.len(), |i: int| class_symbols(m.classes[i])),
    )
}

/// The symbols of the functions of a model, one for each function, module
/// by module.
pub open spec fn symbols(modules: Seq<ModuleView>) -> Seq<Seq<char>> {
    flatten(Seq::new(modules.len(), |i: int| module_symbols(modules[i])))
}

/// The entries of a list without repetition, each at the place where it
/// occurs first.
pub open spec fn first_occurrences(list: Seq<Seq<char>>) -> Seq<Seq<char>>
    decreases list.len(),
{
    if list.len() == 0 {
        Seq::empty()
    } else {
        let front = first_occurrences(list.drop_last());
        if front.contains(list.last()) {
            front
        } else {
            front.push(list.last())
        }
    }
}

/// The exported symbols of a model: the symbols of its functions in model
/// order, each once, at the place of the first function that it stands for.
pub open spec fn exported_symbols(modules: Seq<ModuleView>) -> Seq<Seq<char>> {
    first_occurrences(symbols(modules))
}

/// The name of the flat function for `name`, a free function or a method of `class`.
pub fn exported_name(class: Option<&str>, name: &str) -> (r: String)
    ensures
        r@ == shim_name(opt_text(class), name@),
{
    match class {
        Some(c) => {
            let mut out = String::from_str(c);
            out.append("_");
            out.append(name);
            out
        },
        None => String::from_str(name),
    }
}

/// The link-visible symbol for `name`, a free function or a method of `class`.
pub fn exported_symbol(class: Option<&str>, name: &str) -> (r: String)
    ensures
        r@ == symbol_name(opt_text(class), name@),
{
    let mut out = String::from_str("_");
    out.append(exported_name(class, name).as_str());
    out
}

/// The symbols of a class.
pub fn collect_class_symbols(c: &TsClass) -> (names: Vec<String>)
    ensures
        names.deep_view() == class_symbols(c@),
{
    let mut names: Vec<String> = Vec::new();
    let mut i: usize = 0;
    while i < c.methods.len()
        invariant
            i <= c.methods.len(),
            names.len() == i,
            forall|k: int|
                0 <= k < i ==> names[k]@ == symbol_name(
                    Some(c@.name),
                    (#[trigger] c@.methods[k]).name,
                ),
        decreases c.methods.len() - i,
    {
        names.push(exported_symbol(Some(c.name.as_str()), c.methods[i].name.as_str()));
        i += 1;
    }
    assert(names.deep_view() =~= class_symbols(c@));
    names
}

/// The symbols of a module.
pub fn collect_module_symbols(m: &TsModule) -> (names: Vec<String>)
    ensures
        names.deep_view() == module_symbols(m@),
{
    let mut names: Vec<String> = Vec::new();
    let mut i: usize = 0;
    while i < m.functions.len()
        invariant
            i <= m.functions.len(),
            names.len() == i,
            forall|k: int|
                0 <= k < i ==> names[k]@ == symbol_name(None, (#[trigger] m@.functions[k]).name),
        decreases m.functions.len() - i,
    {
        names.push(exported_symbol(None, m.functions[i].name.as_str()));
        i += 1;
    }
    let ghost free = Seq::new(m@.functions.len(), |i: int| symbol_name(None, m@.functions[i].name));
    let ghost lists = Seq::new(m@.classes.len(), |i: int| class_symbols(m@.classes[i]));
    assert(names.deep_view() =~= free);
    let mut j: usize = 0;
    assert(lists.take(0) =~= Seq::empty());
    while j < m.classes.len()
        invariant
            j <= m.classes.len(),
            free == Seq::new(m@.functions.len(), |i: int| symbol_name(None, m@.functions[i].name)),
            lists == Seq::new(m@.classes.len(), |i: int| class_symbols(m@.classes[i])),
            names.deep_view() == free + flatten(lists.take(j as int)),
        decreases m.classes.len() - j,
    {
        let mut part = collect_class_symbols(&m.classes[j]);
        let ghost before = names.deep_view();
        let ghost added = part.deep_view();
        names.append(&mut part);
        proof {
            assert(names.deep_view() =~= before + added);
            assert(lists.take(j + 1).drop_last() =~= lists.take(j as int));
            assert(lists.take(j + 1).last() == added);
            assert(names.deep_view() =~= free + flatten(lists.take(j + 1)));
        }
        j += 1;
    }
    assert(lists.take(m.classes.len() as int) =~= lists);
    names
}

/// The symbols of the functions of a model, one for each function: `_name`
/// for a free function and `_Class_name` for a method (`_Class_new` for a
/// constructor), module by module, a module's free functions before its
/// classes, in model order.
pub fn collect_function_symbols(modules: &[TsModule]) -> (names: Vec<String>)
    ensures
        names.deep_view() == symbols(modules.deep_view()),
{
    let mut names: Vec<String> = Vec::new();
    let ghost lists = Seq::new(
        modules.deep_view().len(),
        |i: int| module_symbols(modules.deep_view()[i]),
    );
    let mut i: usize = 0;
    assert(lists.take(0) =~= Seq::empty());
    assert(names.deep_view() =~= Seq::empty());
    while i < modules.len()
        invariant
            i <= modules.len(),
            lists == Seq::new(
                modules.deep_view().len(),
                |i: int| module_symbols(modules.deep_view()[i]),
            ),
            names.deep_view() == flatten(lists.take(i as int)),
        decreases modules.len() - i,
    {
        let mut part = collect_module_symbols(&modules[i]);
        let ghost before = names.deep_view();
        let ghost added = part.deep_view();
        names.append(&mut part);
        proof {
            assert(names.deep_view() =~= before + added);
            assert(lists.take(i + 1).drop_last() =~= lists.take(i as int));
            assert(lists.take(i + 1).last() == added);
        }
        i += 1;
    }
    assert(lists.take(modules.len() as int) =~= lists);
    names
}

/// `s` is the symbol of the free function at position `k` of the module at position `m`.
pub open spec fn is_function_symbol(ms: Seq<ModuleView>, m: int, k: int, s: Seq<char>) -> bool {
    &&& 0 <= m < ms.len()
    &&& 0 <= k < ms[m].functions.len()
    &&& s == symbol_name(None, ms[m].functions[k].name)
}

/// `s` is the symbol of the method at position `k` of the class at position
/// `c` of the module at position `m`.
pub open spec fn is_method_symbol(ms: Seq<ModuleView>, m: int, c: int, k: int, s: Seq<char>) -> bool {
    &&& 0 <= m < ms.len()
    &&& 0 <= c < ms[m].classes.len()
    &&& 0 <= k < ms[m].classes[c].methods.len()
    &&& s == symbol_name(Some(ms[m].classes[c].name), ms[m].classes[c].methods[k].name)
}

/// `s` is the symbol of some free function or method of the module at position `m`.
pub open spec fn is_exported_by(ms: Seq<ModuleView>, m: int, s: Seq<char>) -> bool {
    ||| exists|k: int| is_function_symbol(ms, m, k, s)
    ||| exists|c: int, k: int| is_method_symbol(ms, m, c, k, s)
}

/// `s` is the symbol of some free function or method of the model.
pub open spec fn is_exported(ms: Seq<ModuleView>, s: Seq<char>) -> bool {
    exists|m: int| 0 <= m < ms.len() && is_exported_by(ms, m, s)
}

/// No symbol stands for two functions of the model: two free functions, a
/// free function and a method, or two methods.
pub open spec fn single_origin(ms: Seq<ModuleView>) -> bool {
    &&& forall|m1: int, k1: int, m2: int, k2: int, s: Seq<char>|
        #![trigger is_function_symbol(ms, m1, k1, s), is_function_symbol(ms, m2, k2, s)]
        is_function_symbol(ms, m1, k1, s) && is_function_symbol(ms, m2, k2, s) ==> m1 == m2 && k1
            == k2
    &&& forall|m1: int, k1: int, m2: int, c2: int, k2: int, s: Seq<char>|
        #![trigger is_function_symbol(ms, m1, k1, s), is_method_symbol(ms, m2, c2, k2, s)]
        !(is_function_symbol(ms, m1, k1, s) && is_method_symbol(ms, m2, c2, k2, s))
    &&& forall|m1: int, c1: int, k1: int, m2: int, c2: int, k2: int, s: Seq<char>|
        #![trigger is_method_symbol(ms, m1, c1, k1, s), is_method_symbol(ms, m2, c2, k2, s)]
        is_method_symbol(ms, m1, c1, k1, s) && is_method_symbol(ms, m2, c2, k2, s) ==> m1 == m2
            && c1 == c2 && k1 == k2
}

/// The symbol of a free function is `_` and its name; that of a method is
/// `_`, its class, `_` and its name.
pub proof fn lemma_symbol_forms(class: Seq<char>, name: Seq<char>)
    ensures
        symbol_name(None, name) == "_"@ + name,
        symbol_name(Some(class), name) == "_"@ + class + "_"@ + name,
{
    assert("_"@ + (class + "_"@ + name) =~= "_"@ + class + "_"@ + name);
}

/// What two lists one after the other hold is what either holds.
proof fn lemma_concat_contains(a: Seq<Seq<char>>, b: Seq<Seq<char>>, s: Seq<char>)
    ensures
        (a + b).contains(s) <==> (a.contains(s) || b.contains(s)),
{
    if a.contains(s) {
        let i = choose|i: int| 0 <= i < a.len() && a[i] == s;
        assert((a + b)[i] == s);
    }
    if b.contains(s) {
        let i = choose|i: int| 0 <= i < b.len() && b[i] == s;
        assert((a + b)[a.len() + i] == s);
    }
    if (a + b).contains(s) {
        let i = choose|i: int| 0 <= i < (a + b).len() && (a + b)[i] == s;
        if i < a.len() {
            assert(a[i] == s);
        } else {
            assert(b[i - a.len()] == s);
        }
    }
}

/// Two lists without duplicates that share nothing give one without duplicates.
proof fn lemma_concat_no_duplicates(a: Seq<Seq<char>>, b: Seq<Seq<char>>)
    requires
        a.no_duplicates(),
        b.no_duplicates(),
        forall|s: Seq<char>| !(a.contains(s) && b.contains(s)),
    ensures
        (a + b).no_duplicates(),
{
    let ab = a + b;
    assert forall|i: int, j: int| 0 <= i < ab.len() && 0 <= j < ab.len() && i != j implies ab[i]
        != ab[j] by {
        if i < a.len() && j >= a.len() {
            assert(a.contains(a[i]));
            assert(b.contains(b[j - a.len()]));
        } else if j < a.len() && i >= a.len() {
            assert(a.contains(a[j]));
            assert(b.contains(b[i - a.len()]));
        }
    }
}

/// The flattened lists hold what some list holds.
pub proof fn lemma_flatten_contains(lists: Seq<Seq<Seq<char>>>, s: Seq<char>)
    ensures
        flatten(lists).contains(s) <==> exists|i: int|
            0 <= i < lists.len() && (#[trigger] lists[i]).contains(s),
    decreases lists.len(),
{
    if lists.len() == 0 {
    } else {
        let front = lists.drop_last();
        lemma_flatten_contains(front, s);
        lemma_concat_contains(flatten(front), lists.last(), s);
        if flatten(lists).contains(s) {
            if lists.last().contains(s) {
                assert(lists[lists.len() - 1].contains(s));
            } else {
                let i = choose|i: int| 0 <= i < front.len() && (#[trigger] front[i]).contains(s);
                assert(lists[i].contains(s));
            }
        }
        if exists|i: int| 0 <= i < lists.len() && (#[trigger] lists[i]).contains(s) {
            let i = choose|i: int| 0 <= i < lists.len() && (#[trigger] lists[i]).contains(s);
            if i < lists.len() - 1 {
                assert(front[i].contains(s));
            }
        }
    }
}

/// Lists without duplicates that share nothing pairwise flatten to a list
/// without duplicates.
proof fn lemma_flatten_no_duplicates(lists: Seq<Seq<Seq<char>>>)
    requires
        forall|i: int| 0 <= i < lists.len() ==> (#[trigger] lists[i]).no_duplicates(),
        forall|i: int, j: int, s: Seq<char>|
            #![trigger lists[i].contains(s), lists[j].contains(s)]
            0 <= i < lists.len() && 0 <= j < lists.len() && i != j ==> !(lists[i].contains(s)
                && lists[j].contains(s)),
    ensures
        flatten(lists).no_duplicates(),
    decreases lists.len(),
{
    if lists.len() == 0 {
    } else {
        let front = lists.drop_last();
        assert forall|i: int| 0 <= i < front.len() implies (#[trigger] front[i]).no_duplicates() by {
            assert(front[i] == lists[i]);
        }
        assert forall|i: int, j: int, s: Seq<char>|
            #![trigger front[i].contains(s), front[j].contains(s)]
            0 <= i < front.len() && 0 <= j < front.len() && i != j implies !(front[i].contains(s)
            && front[j].contains(s)) by {
            assert(front[i] == lists[i]);
            assert(front[j] == lists[j]);
        }
        lemma_flatten_no_duplicates(front);
        assert forall|s: Seq<char>| !(flatten(front).contains(s) && lists.last().contains(s)) by {
            lemma_flatten_contains(front, s);
            if flatten(front).contains(s) && lists.last().contains(s) {
                let i = choose|i: int| 0 <= i < front.len() && (#[trigger] front[i]).contains(s);
                assert(lists[i].contains(s));
                assert(lists[lists.len() - 1].contains(s));
            }
        }
        lemma_concat_no_duplicates(flatten(front), lists.last());
    }
}

/// The symbols of a module are those of its free functions and methods.
pub proof fn lemma_module_symbols_contains(ms: Seq<ModuleView>, m: int, s: Seq<char>)
    requires
        0 <= m < ms.len(),
    ensures
        module_symbols(ms[m]).contains(s) <==> is_exported_by(ms, m, s),
{
    let md = ms[m];
    let free = Seq::new(md.functions.len(), |i: int| symbol_name(None, md.functions[i].name));
    let lists = Seq::new(md.classes.len(), |i: int| class_symbols(md.classes[i]));
    lemma_concat_contains(free, flatten(lists), s);
    lemma_flatten_contains(lists, s);
    if free.contains(s) {
        let k = choose|k: int| 0 <= k < free.len() && free[k] == s;
        assert(is_function_symbol(ms, m, k, s));
    }
    if flatten(lists).contains(s) {
        let c = choose|c: int| 0 <= c < lists.len() && (#[trigger] lists[c]).contains(s);
        let k = choose|k: int| 0 <= k < lists[c].len() && lists[c][k] == s;
        assert(is_method_symbol(ms, m, c, k, s));
    }
    if exists|k: int| is_function_symbol(ms, m, k, s) {
        let k = choose|k: int| is_function_symbol(ms, m, k, s);
        assert(free[k] == s);
    }
    if exists|c: int, k: int| is_method_symbol(ms, m, c, k, s) {
        let (c, k) = choose|c: int, k: int| is_method_symbol(ms, m, c, k, s);
        assert(lists[c][k] == s);
        assert(lists[c].contains(s));
    }
}

/// The collector's list holds exactly the symbols of the model's functions:
/// `_name` for each free function, `_Class_name` for each method (so
/// `_Class_new` for a constructor), and nothing else.
pub proof fn lemma_symbols_exact(ms: Seq<ModuleView>, s: Seq<char>)
    ensures
        symbols(ms).contains(s) <==> is_exported(ms, s),
{
    let lists = Seq::new(ms.len(), |i: int| module_symbols(ms[i]));
    lemma_flatten_contains(lists, s);
    if symbols(ms).contains(s) {
        let m = choose|m: int| 0 <= m < lists.len() && (#[trigger] lists[m]).contains(s);
        lemma_module_symbols_contains(ms, m, s);
    }
    if is_exported(ms, s) {
        let m = choose|m: int| 0 <= m < ms.len() && is_exported_by(ms, m, s);
        lemma_module_symbols_contains(ms, m, s);
        assert(lists[m].contains(s));
    }
}

/// Where no symbol stands for two functions of the model, the collector's
/// list names none twice.
pub proof fn lemma_symbols_distinct(ms: Seq<ModuleView>)
    requires
        single_origin(ms),
    ensures
        symbols(ms).no_duplicates(),
{
    let lists = Seq::new(ms.len(), |i: int| module_symbols(ms[i]));
    assert forall|m: int| 0 <= m < lists.len() implies (#[trigger] lists[m]).no_duplicates() by {
        let md = ms[m];
        let free = Seq::new(md.functions.len(), |i: int| symbol_name(None, md.functions[i].name));
        let classes = Seq::new(md.classes.len(), |i: int| class_symbols(md.classes[i]));
        assert forall|i: int, j: int| 0 <= i < free.len() && 0 <= j < free.len() && i != j implies free[i]
            != free[j] by {
            if free[i] == free[j] {
                assert(is_function_symbol(ms, m, i, free[i]));
                assert(is_function_symbol(ms, m, j, free[i]));
            }
        }
        assert forall|c: int| 0 <= c < classes.len() implies (#[trigger] classes[c]).no_duplicates() by {
            let list = classes[c];
            assert forall|i: int, j: int|
                0 <= i < list.len() && 0 <= j < list.len() && i != j implies list[i] != list[j] by {
                if list[i] == list[j] {
                    assert(is_method_symbol(ms, m, c, i, list[i]));
                    assert(is_method_symbol(ms, m, c, j, list[i]));
                }
            }
        }
        assert forall|c1: int, c2: int, s: Seq<char>|
            #![trigger classes[c1].contains(s), classes[c2].contains(s)]
            0 <= c1 < classes.len() && 0 <= c2 < classes.len() && c1 != c2 implies !(
        classes[c1].contains(s) && classes[c2].contains(s)) by {
            if classes[c1].contains(s) && classes[c2].contains(s) {
                let k1 = choose|k: int| 0 <= k < classes[c1].len() && classes[c1][k] == s;
                let k2 = choose|k: int| 0 <= k < classes[c2].len() && classes[c2][k] == s;
                assert(is_method_symbol(ms, m, c1, k1, s));
                assert(is_method_symbol(ms, m, c2, k2, s));
            }
        }
        lemma_flatten_no_duplicates(classes);
        assert forall|s: Seq<char>| !(free.contains(s) && flatten(classes).contains(s)) by {
            lemma_flatten_contains(classes, s);
            if free.contains(s) && flatten(classes).contains(s) {
                let k1 = choose|k: int| 0 <= k < free.len() && free[k] == s;
                let c = choose|c: int| 0 <= c < classes.len() && (#[trigger] classes[c]).contains(s);
                let k2 = choose|k: int| 0 <= k < classes[c].len() && classes[c][k] == s;
                assert(is_function_symbol(ms, m, k1, s));
                assert(is_method_symbol(ms, m, c, k2, s));
            }
        }
        lemma_concat_no_duplicates(free, flatten(classes));
    }
    assert forall|m1: int, m2: int, s: Seq<char>|
        #![trigger lists[m1].contains(s), lists[m2].contains(s)]
        0 <= m1 < lists.len() && 0 <= m2 < lists.len() && m1 != m2 implies !(lists[m1].contains(s)
        && lists[m2].contains(s)) by {
        if lists[m1].contains(s) && lists[m2].contains(s) {
            lemma_module_symbols_contains(ms, m1, s);
            lemma_module_symbols_contains(ms, m2, s);
            if exists|k: int| is_function_symbol(ms, m1, k, s) {
                let k1 = choose|k: int| is_function_symbol(ms, m1, k, s);
                if exists|k: int| is_function_symbol(ms, m2, k, s) {
                    let k2 = choose|k: int| is_function_symbol(ms, m2, k, s);
                    assert(is_function_symbol(ms, m1, k1, s) && is_function_symbol(ms, m2, k2, s));
                } else {
                    let (c2, k2) = choose|c: int, k: int| is_method_symbol(ms, m2, c, k, s);
                    assert(is_function_symbol(ms, m1, k1, s) && is_method_symbol(ms, m2, c2, k2, s));
                }
            } else {
                let (c1, k1) = choose|c: int, k: int| is_method_symbol(ms, m1, c, k, s);
                if exists|k: int| is_function_symbol(ms, m2, k, s) {
                    let k2 = choose|k: int| is_function_symbol(ms, m2, k, s);
                    assert(is_function_symbol(ms, m2, k2, s) && is_method_symbol(ms, m1, c1, k1, s));
                } else {
                    let (c2, k2) = choose|c: int, k: int| is_method_symbol(ms, m2, c, k, s);
                    assert(is_method_symbol(ms, m1, c1, k1, s) && is_method_symbol(
                        ms,
                        m2,
                        c2,
                        k2,
                        s,
                    ));
                }
            }
        }
    }
    lemma_flatten_no_duplicates(lists);
}

/// A list without repetition names nothing twice and holds what the list holds.
pub proof fn lemma_first_occurrences(list: Seq<Seq<char>>)
    ensures
        first_occurrences(list).no_duplicates(),
        forall|x: Seq<char>| #[trigger] first_occurrences(list).contains(x) <==> list.contains(x),
    decreases list.len(),
{
    if list.len() == 0 {
    } else {
        let shorter = list.drop_last();
        let last = list.last();
        let front = first_occurrences(shorter);
        let r = first_occurrences(list);
        lemma_first_occurrences(shorter);
        assert(list =~= shorter.push(last));
        assert forall|x: Seq<char>| #[trigger] r.contains(x) <==> list.contains(x) by {
            lemma_concat_contains(shorter, seq![last], x);
            assert(shorter + seq![last] =~= list);
            if seq![last].contains(x) {
                let i = choose|i: int| 0 <= i < seq![last].len() && seq![last][i] == x;
                assert(x == last);
            }
            if x == last {
                assert(seq![last][0] == x);
            }
            assert(front.contains(x) <==> shorter.contains(x));
            if front.contains(last) {
            } else {
                lemma_concat_contains(front, seq![last], x);
                assert(front + seq![last] =~= r);
            }
        }
        if !front.contains(last) {
            assert forall|i: int, j: int| 0 <= i < r.len() && 0 <= j < r.len() && i != j implies r[i]
                != r[j] by {
                if i == front.len() {
                    assert(front.contains(r[j]));
                } else if j == front.len() {
                    assert(front.contains(r[i]));
                }
            }
        }
    }
}

/// A list that names nothing twice is its own list without repetition.
pub proof fn lemma_first_occurrences_of_distinct(list: Seq<Seq<char>>)
    requires
        list.no_duplicates(),
    ensures
        first_occurrences(list) == list,
    decreases list.len(),
{
    if list.len() == 0 {
        assert(first_occurrences(list) =~= list);
    } else {
        let shorter = list.drop_last();
        lemma_first_occurrences_of_distinct(shorter);
        if shorter.contains(list.last()) {
            let i = choose|i: int| 0 <= i < shorter.len() && shorter[i] == list.last();
            assert(list[i] == list[list.len() - 1]);
        }
        assert(first_occurrences(list) =~= list);
    }
}

/// The exported symbols of any model name no symbol twice, and they are
/// exactly the symbols of the model's functions: `_name` for each free
/// function, `_Class_name` for each method (so `_Class_new` for a
/// constructor), and nothing else.
pub proof fn lemma_exported_symbols(ms: Seq<ModuleView>)
    ensures
        exported_symbols(ms).no_duplicates(),
        forall|s: Seq<char>| #[trigger] exported_symbols(ms).contains(s) <==> is_exported(ms, s),
{
    lemma_first_occurrences(symbols(ms));
    assert forall|s: Seq<char>| #[trigger] exported_symbols(ms).contains(s) <==> is_exported(
        ms,
        s,
    ) by {
        lemma_symbols_exact(ms, s);
    }
}

/// Where no symbol stands for two functions of the model, the exported
/// symbols are the symbols of its functions, one for each function.
pub proof fn lemma_exported_symbols_one_each(ms: Seq<ModuleView>)
    requires
        single_origin(ms),
    ensures
        exported_symbols(ms) == symbols(ms),
{
    lemma_symbols_distinct(ms);
    lemma_first_occurrences_of_distinct(symbols(ms));
}

/// Whether `names` holds `name`.
pub fn holds_name(names: &Vec<String>, name: &str) -> (r: bool)
    ensures
        r == names.deep_view().contains(name@),
{
    let mut i: usize = 0;
    while i < names.len()
        invariant
            i <= names.len(),
            forall|k: int| 0 <= k < i ==> names.deep_view()[k] != name@,
        decreases names.len() - i,
    {
        if str_eq(names[i].as_str(), name) {
            assert(names.deep_view()[i as int] == name@);
            return true;
        }
        i += 1;
    }
    false
}

/// The exported symbols of a model: `_name` for a free function and
/// `_Class_name` for a method (`_Class_new` for a constructor), in model
/// order, a module's free functions before its classes. No symbol is listed
/// twice: where several functions have one symbol, it stands at the place of
/// the first of them.
pub fn collect_exported_function_names(modules: &[TsModule]) -> (names: Vec<String>)
    ensures
        names.deep_view() == exported_symbols(modules.deep_view()),
        names.deep_view().no_duplicates(),
        forall|s: Seq<char>|
            #[trigger] names.deep_view().contains(s) <==> is_exported(modules.deep_view(), s),
{
    let all = collect_function_symbols(modules);
    let mut names: Vec<String> = Vec::new();
    let mut i: usize = 0;
    assert(all.deep_view().take(0) =~= Seq::empty());
    assert(names.deep_view() =~= Seq::empty());
    while i < all.len()
        invariant
            i <= all.len(),
            names.deep_view() == first_occurrences(all.deep_view().take(i as int)),
        decreases all.len() - i,
    {
        proof {
            let next = all.deep_view().take(i + 1);
            assert(next.drop_last() =~= all.deep_view().take(i as int));
            assert(next.last() == all[i as int]@);
        }
        if !holds_name(&names, all[i].as_str()) {
            let ghost before = names.deep_view();
            names.push(all[i].clone());
            assert(names.deep_view() =~= before.push(all[i as int]@));
        }
        i += 1;
    }
    proof {
        assert(all.deep_view().take(all.len() as int) =~= all.deep_view());
        lemma_exported_symbols(modules.deep_view());
    }
    names
}

} // verus!
