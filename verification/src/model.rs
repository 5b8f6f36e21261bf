//! The interface model: functions, classes and modules, with their views.

use vstd::prelude::*;
use vstd::string::*;
use crate::text::str_eq;

verus! {

/// A generator hint: a flag, a piece of text, or any other value, held as
/// the JSON text that writes it down.
#[derive(Clone, Debug, PartialEq, Eq)]
pub enum MetaValue {
    Flag(bool),
    Text(String),
    Json(String),
}

/// What a [`MetaValue`] stands for.
pub enum MetaValueView {
    Flag(bool),
    Text(Seq<char>),
    Json(Seq<char>),
}

impl View for MetaValue {
    type V = MetaValueView;

    open spec fn view(&self) -> MetaValueView {
        match self {
            MetaValue::Flag(b) => MetaValueView::Flag(*b),
            MetaValue::Text(t) => MetaValueView::Text(t@),
            MetaValue::Json(t) => MetaValueView::Json(t@),
        }
    }
}

impl DeepView for MetaValue {
    type V = MetaValueView;

    open spec fn deep_view(&self) -> MetaValueView {
        self@
    }
}

/// The map that a list of hint entries stands for: a later entry replaces an
/// earlier one under the same key.
pub open spec fn entries_map(entries: Seq<(Seq<char>, MetaValueView)>) -> Map<
    Seq<char>,
    MetaValueView,
>
    decreases entries.len(),
{
    if entries.len() == 0 {
        Map::empty()
    } else {
        entries_map(entries.drop_last()).insert(entries.last().0, entries.last().1)
    }
}

/// Generator hints of a function, keyed by name. They are no part of the
/// function's signature.
#[derive(Clone, Debug)]
pub struct Meta {
    entries: Vec<(String, MetaValue)>,
}

impl View for Meta {
    type V = Map<Seq<char>, MetaValueView>;

    closed spec fn view(&self) -> Map<Seq<char>, MetaValueView> {
        entries_map(self.entries.deep_view())
    }
}

impl DeepView for Meta {
    type V = Map<Seq<char>, MetaValueView>;

    open spec fn deep_view(&self) -> Map<Seq<char>, MetaValueView> {
        self@
    }
}

/// A key that no entry from position `from` on carries is looked up in the
/// entries before `from`.
proof fn lemma_entries_map_skip(entries: Seq<(Seq<char>, MetaValueView)>, from: int, key: Seq<char>)
    requires
        0 <= from <= entries.len(),
        forall|j: int| from <= j < entries.len() ==> entries[j].0 != key,
    ensures
        entries_map(entries).dom().contains(key) == entries_map(entries.take(from)).dom().contains(
            key,
        ),
        entries_map(entries).dom().contains(key) ==> entries_map(entries)[key] == entries_map(
            entries.take(from),
        )[key],
    decreases entries.len() - from,
{
    if from == entries.len() {
        assert(entries.take(from) =~= entries);
    } else {
        let shorter = entries.drop_last();
        assert(shorter.take(from) =~= entries.take(from));
        lemma_entries_map_skip(shorter, from, key);
    }
}

impl Meta {
    /// No hints.
    pub fn new() -> (m: Meta)
        ensures
            m@ == Map::<Seq<char>, MetaValueView>::empty(),
    {
        let m = Meta { entries: Vec::new() };
        assert(m.entries.deep_view() =~= Seq::empty());
        m
    }

    /// Whether there is no hint at all.
    pub fn is_empty(&self) -> (r: bool)
        ensures
            r == (self@ == Map::<Seq<char>, MetaValueView>::empty()),
    {
        let r = self.entries.len() == 0;
        proof {
            let e = self.entries.deep_view();
            if e.len() == 0 {
            } else {
                assert(entries_map(e).dom().contains(e.last().0));
            }
        }
        r
    }

    /// Sets the hint `key` to `value`, in place of an earlier value if there was one.
    pub fn insert(&mut self, key: String, value: MetaValue)
        ensures
            final(self)@ == old(self)@.insert(key@, value@),
    {
        proof {
            let before = self.entries.deep_view();
            let after = before.push((key@, value@));
            assert(after.drop_last() =~= before);
        }
        let ghost before = self.entries.deep_view();
        self.entries.push((key, value));
        assert(self.entries.deep_view() =~= before.push((key@, value@)));
    }

    /// The hint under `key`, if there is one.
    pub fn get(&self, key: &str) -> (r: Option<&MetaValue>)
        ensures
            match r {
                Some(v) => self@.dom().contains(key@) && self@[key@] == v@,
                None => !self@.dom().contains(key@),
            },
    {
        let ghost e = self.entries.deep_view();
        let mut i: usize = self.entries.len();
        while i > 0
            invariant
                i <= self.entries.len(),
                e == self.entries.deep_view(),
                forall|j: int| i <= j < e.len() ==> e[j].0 != key@,
            decreases i,
        {
            i -= 1;
            if str_eq(self.entries[i].0.as_str(), key) {
                proof {
                    lemma_entries_map_skip(e, i + 1, key@);
                    assert(e.take(i + 1).drop_last() =~= e.take(i as int));
                    assert(e.take(i + 1).last() == e[i as int]);
                }
                return Some(&self.entries[i].1);
            }
        }
        proof {
            lemma_entries_map_skip(e, 0, key@);
            assert(e.take(0) =~= Seq::empty());
        }
        None
    }

    /// Whether there is a hint under `key`.
    pub fn contains_key(&self, key: &str) -> (r: bool)
        ensures
            r == self@.dom().contains(key@),
    {
        self.get(key).is_some()
    }

    /// The hints as a list that stands for the same map (see [`entries_map`]).
    pub fn entries(&self) -> (r: &Vec<(String, MetaValue)>)
        ensures
            entries_map(r.deep_view()) == self@,
    {
        &self.entries
    }
}

/// An exported function or method.
#[derive(Clone, Debug)]
pub struct TsFunction {
    pub name: String,
    /// The parameters in calling order, each a name and a source type name.
    pub args: Vec<(String, String)>,
    pub return_type: String,
    /// The body override; empty where there is none.
    pub body: String,
    pub meta: Meta,
}

/// What a [`TsFunction`] stands for.
pub struct FunctionView {
    pub name: Seq<char>,
    pub args: Seq<(Seq<char>, Seq<char>)>,
    pub return_type: Seq<char>,
    pub body: Seq<char>,
    pub meta: Map<Seq<char>, MetaValueView>,
}

impl View for TsFunction {
    type V = FunctionView;

    open spec fn view(&self) -> FunctionView {
        FunctionView {
            name: self.name@,
            args: self.args.deep_view(),
            return_type: self.return_type@,
            body: self.body@,
            meta: self.meta@,
        }
    }
}

impl DeepView for TsFunction {
    type V = FunctionView;

    open spec fn deep_view(&self) -> FunctionView {
        self@
    }
}

/// An exported class: a name and its methods in declaration order.
#[derive(Clone, Debug)]
pub struct TsClass {
    pub name: String,
    pub methods: Vec<TsFunction>,
}

/// What a [`TsClass`] stands for.
pub struct ClassView {
    pub name: Seq<char>,
    pub methods: Seq<FunctionView>,
}

impl View for TsClass {
    type V = ClassView;

    open spec fn view(&self) -> ClassView {
        ClassView { name: self.name@, methods: self.methods.deep_view() }
    }
}

impl DeepView for TsClass {
    type V = ClassView;

    open spec fn deep_view(&self) -> ClassView {
        self@
    }
}

/// An exported module: free functions and classes, each in declaration order.
#[derive(Clone, Debug)]
pub struct TsModule {
    pub name: String,
    pub functions: Vec<TsFunction>,
    pub classes: Vec<TsClass>,
}

/// What a [`TsModule`] stands for.
pub struct ModuleView {
    pub name: Seq<char>,
    pub functions: Seq<FunctionView>,
    pub classes: Seq<ClassView>,
}

impl View for TsModule {
    type V = ModuleView;

    open spec fn view(&self) -> ModuleView {
        ModuleView {
            name: self.name@,
            functions: self.functions.deep_view(),
            classes: self.classes.deep_view(),
        }
    }
}

impl DeepView for TsModule {
    type V = ModuleView;

    open spec fn deep_view(&self) -> ModuleView {
        self@
    }
}

/// Two functions are duplicates of each other: same name, same parameters.
pub open spec fn same_signature(a: FunctionView, b: FunctionView) -> bool {
    a.name == b.name && a.args == b.args
}

impl TsFunction {
    /// Whether `other` has this function's name and parameters. Return type,
    /// body and hints play no part.
    pub fn same_signature(&self, other: &TsFunction) -> (r: bool)
        ensures
            r == same_signature(self@, other@),
    {
        if self.name != other.name {
            return false;
        }
        if self.args.len() != other.args.len() {
            assert(self@.args.len() != other@.args.len());
            return false;
        }
        let mut i: usize = 0;
        while i < self.args.len()
            invariant
                i <= self.args.len(),
                self.args.len() == other.args.len(),
                forall|k: int| 0 <= k < i ==> self@.args[k] == other@.args[k],
            decreases self.args.len() - i,
        {
            if self.args[i].0 != other.args[i].0 || self.args[i].1 != other.args[i].1 {
                assert(self@.args[i as int] != other@.args[i as int]);
                return false;
            }
            i += 1;
        }
        assert(self@.args =~= other@.args);
        true
    }
}

} // verus!
