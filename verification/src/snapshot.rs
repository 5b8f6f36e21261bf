//! The records of a snapshot: the model as it is written down, where a body
//! override and hints are left out when they are empty, and what is read
//! back from such records.

use vstd::prelude::*;
use vstd::string::*;
use crate::model::{
    entries_map,
    ClassView,
    FunctionView,
    Meta,
    MetaValue,
    MetaValueView,
    ModuleView,
    TsClass,
    TsFunction,
    TsModule,
};
use crate::text::char_len;

verus! {

/// A function as a snapshot holds it. `body` and `meta` are `None` where the
/// snapshot does not mention them.
#[derive(Clone, Debug)]
pub struct FunctionRecord {
    pub name: String,
    pub args: Vec<(String, String)>,
    pub return_type: String,
    pub body: Option<String>,
    pub meta: Option<Vec<(String, MetaValue)>>,
}

/// A class as a snapshot holds it.
#[derive(Clone, Debug)]
pub struct ClassRecord {
    pub name: String,
    pub methods: Vec<FunctionRecord>,
}

/// A module as a snapshot holds it.
#[derive(Clone, Debug)]
pub struct ModuleRecord {
    pub name: String,
    pub functions: Vec<FunctionRecord>,
    pub classes: Vec<ClassRecord>,
}

/// What a [`FunctionRecord`] stands for.
pub struct FunctionRecordView {
    pub name: Seq<char>,
    pub args: Seq<(Seq<char>, Seq<char>)>,
    pub return_type: Seq<char>,
    pub body: Option<Seq<char>>,
    pub meta: Option<Seq<(Seq<char>, MetaValueView)>>,
}

/// What a [`ClassRecord`] stands for.
pub struct ClassRecordView {
    pub name: Seq<char>,
    pub methods: Seq<FunctionRecordView>,
}

/// What a [`ModuleRecord`] stands for.
pub struct ModuleRecordView {
    pub name: Seq<char>,
    pub functions: Seq<FunctionRecordView>,
    pub classes: Seq<ClassRecordView>,
}

impl View for FunctionRecord {
    type V = FunctionRecordView;

    open spec fn view(&self) -> FunctionRecordView {
        FunctionRecordView {
            name: self.name@,
            args: self.args.deep_view(),
            return_type: self.return_type@,
            body: self.body.deep_view(),
            meta: self.meta.deep_view(),
        }
    }
}

impl DeepView for FunctionRecord {
    type V = FunctionRecordView;

    open spec fn deep_view(&self) -> FunctionRecordView {
        self@
    }
}

impl View for ClassRecord {
    type V = ClassRecordView;

    open spec fn view(&self) -> ClassRecordView {
        ClassRecordView { name: self.name@, methods: self.methods.deep_view() }
    }
}

impl DeepView for ClassRecord {
    type V = ClassRecordView;

    open spec fn deep_view(&self) -> ClassRecordView {
        self@
    }
}

impl View for ModuleRecord {
    type V = ModuleRecordView;

    open spec fn view(&self) -> ModuleRecordView {
        ModuleRecordView {
            name: self.name@,
            functions: self.functions.deep_view(),
            classes: self.classes.deep_view(),
        }
    }
}

impl DeepView for ModuleRecord {
    type V = ModuleRecordView;

    open spec fn deep_view(&self) -> ModuleRecordView {
        self@
    }
}

/// The function that a record gives when it is read: a body that is not
/// mentioned is empty, and so are hints that are not mentioned.
pub open spec fn function_of(r: FunctionRecordView) -> FunctionView {
    FunctionView {
        name: r.name,
        args: r.args,
        return_type: r.return_type,
        body: match r.body {
            Some(b) => b,
            None => Seq::empty(),
        },
        meta: match r.meta {
            Some(entries) => entries_map(entries),
            None => Map::empty(),
        },
    }
}

/// The class that a record gives when it is read.
pub open spec fn class_of(r: ClassRecordView) -> ClassView {
    ClassView { name: r.name, methods: Seq::new(r.methods.len(), |i: int| function_of(r.methods[i])) }
}

/// The module that a record gives when it is read.
pub open spec fn module_of(r: ModuleRecordView) -> ModuleView {
    ModuleView {
        name: r.name,
        functions: Seq::new(r.functions.len(), |i: int| function_of(r.functions[i])),
        classes: Seq::new(r.classes.len(), |i: int| class_of(r.classes[i])),
    }
}

/// The model that records give when they are read.
pub open spec fn model_of(records: Seq<ModuleRecordView>) -> Seq<ModuleView> {
    Seq::new(records.len(), |i: int| module_of(records[i]))
}

/// `r` is a record of the function `f`: it has its name, parameters and
/// return type, it mentions the body unless that is empty, and it mentions
/// the hints, as a list that stands for them, unless there are none.
pub open spec fn is_function_record(r: FunctionRecordView, f: FunctionView) -> bool {
    &&& r.name == f.name
    &&& r.args == f.args
    &&& r.return_type == f.return_type
    &&& r.body == if f.body.len() == 0 {
        None
    } else {
        Some(f.body)
    }
    &&& match r.meta {
        Some(entries) => entries_map(entries) == f.meta && f.meta != Map::<
            Seq<char>,
            MetaValueView,
        >::empty(),
        None => f.meta == Map::<Seq<char>, MetaValueView>::empty(),
    }
}

/// `r` is a record of the class `c`: its name, and a record of each method in order.
pub open spec fn is_class_record(r: ClassRecordView, c: ClassView) -> bool {
    &&& r.name == c.name
    &&& r.methods.len() == c.methods.len()
    &&& forall|i: int|
        0 <= i < c.methods.len() ==> is_function_record(#[trigger] r.methods[i], c.methods[i])
}

/// `r` is a record of the module `m`: its name, and a record of each
/// function and of each class in order.
pub open spec fn is_module_record(r: ModuleRecordView, m: ModuleView) -> bool {
    &&& r.name == m.name
    &&& r.functions.len() == m.functions.len()
    &&& forall|i: int|
        0 <= i < m.functions.len() ==> is_function_record(#[trigger] r.functions[i], m.functions[i])
    &&& r.classes.len() == m.classes.len()
    &&& forall|i: int|
        0 <= i < m.classes.len() ==> is_class_record(#[trigger] r.classes[i], m.classes[i])
}

/// `records` are records of the model `ms`: one of each module in order.
pub open spec fn is_snapshot(records: Seq<ModuleRecordView>, ms: Seq<ModuleView>) -> bool {
    &&& records.len() == ms.len()
    &&& forall|i: int| 0 <= i < ms.len() ==> is_module_record(#[trigger] records[i], ms[i])
}

/// What is read from a record of a function is that function.
pub proof fn lemma_function_round_trip(r: FunctionRecordView, f: FunctionView)
    requires
        is_function_record(r, f),
    ensures
        function_of(r) == f,
{
    assert(function_of(r).body =~= f.body);
}

/// What is read from a record of a class is that class.
pub proof fn lemma_class_round_trip(r: ClassRecordView, c: ClassView)
    requires
        is_class_record(r, c),
    ensures
        class_of(r) == c,
{
    assert forall|i: int| 0 <= i < c.methods.len() implies class_of(r).methods[i]
        == c.methods[i] by {
        lemma_function_round_trip(r.methods[i], c.methods[i]);
    }
    assert(class_of(r).methods =~= c.methods);
}

/// What is read from a record of a module is that module.
pub proof fn lemma_module_round_trip(r: ModuleRecordView, m: ModuleView)
    requires
        is_module_record(r, m),
    ensures
        module_of(r) == m,
{
    assert forall|i: int| 0 <= i < m.functions.len() implies module_of(r).functions[i]
        == m.functions[i] by {
        lemma_function_round_trip(r.functions[i], m.functions[i]);
    }
    assert forall|i: int| 0 <= i < m.classes.len() implies module_of(r).classes[i]
        == m.classes[i] by {
        lemma_class_round_trip(r.classes[i], m.classes[i]);
    }
    assert(module_of(r).functions =~= m.functions);
    assert(module_of(r).classes =~= m.classes);
}

/// Writing a model down and reading it back gives the model: name,
/// parameters, return type, body and hints of every function, in the order
/// of the model.
pub proof fn lemma_snapshot_round_trip(records: Seq<ModuleRecordView>, ms: Seq<ModuleView>)
    requires
        is_snapshot(records, ms),
    ensures
        model_of(records) == ms,
{
    assert forall|i: int| 0 <= i < ms.len() implies model_of(records)[i] == ms[i] by {
        lemma_module_round_trip(records[i], ms[i]);
    }
    assert(model_of(records) =~= ms);
}

/// A copy of a hint.
pub fn copy_hint(value: &MetaValue) -> (r: MetaValue)
    ensures
        r@ == value@,
{
    match value {
        MetaValue::Flag(flag) => MetaValue::Flag(*flag),
        MetaValue::Text(text) => MetaValue::Text(text.clone()),
        MetaValue::Json(text) => MetaValue::Json(text.clone()),
    }
}

/// A copy of a list of hints.
pub fn copy_hints(entries: &Vec<(String, MetaValue)>) -> (r: Vec<(String, MetaValue)>)
    ensures
        r.deep_view() == entries.deep_view(),
{
    let mut out: Vec<(String, MetaValue)> = Vec::new();
    let mut i: usize = 0;
    while i < entries.len()
        invariant
            i <= entries.len(),
            out.len() == i,
            forall|k: int| 0 <= k < i ==> out.deep_view()[k] == entries.deep_view()[k],
        decreases entries.len() - i,
    {
        let ghost before = out.deep_view();
        let key = entries[i].0.clone();
        let value = copy_hint(&entries[i].1);
        out.push((key, value));
        assert(out.deep_view() =~= before.push(entries.deep_view()[i as int]));
        i += 1;
    }
    assert(out.deep_view() =~= entries.deep_view());
    out
}

/// A copy of a parameter list.
pub fn copy_args(args: &Vec<(String, String)>) -> (r: Vec<(String, String)>)
    ensures
        r.deep_view() == args.deep_view(),
{
    let mut out: Vec<(String, String)> = Vec::new();
    let mut i: usize = 0;
    while i < args.len()
        invariant
            i <= args.len(),
            out.len() == i,
            forall|k: int| 0 <= k < i ==> out.deep_view()[k] == args.deep_view()[k],
        decreases args.len() - i,
    {
        let ghost before = out.deep_view();
        out.push((args[i].0.clone(), args[i].1.clone()));
        assert(out.deep_view() =~= before.push(args.deep_view()[i as int]));
        i += 1;
    }
    assert(out.deep_view() =~= args.deep_view());
    out
}

/// The record of a function.
pub fn function_record(f: &TsFunction) -> (r: FunctionRecord)
    ensures
        is_function_record(r@, f@),
{
    let body = if char_len(f.body.as_str()) == 0 {
        None
    } else {
        Some(f.body.clone())
    };
    let meta = if f.meta.is_empty() {
        None
    } else {
        Some(copy_hints(f.meta.entries()))
    };
    FunctionRecord {
        name: f.name.clone(),
        args: copy_args(&f.args),
        return_type: f.return_type.clone(),
        body,
        meta,
    }
}

/// The record of a class.
pub fn class_record(c: &TsClass) -> (r: ClassRecord)
    ensures
        is_class_record(r@, c@),
{
    let mut methods: Vec<FunctionRecord> = Vec::new();
    let mut i: usize = 0;
    while i < c.methods.len()
        invariant
            i <= c.methods.len(),
            methods.len() == i,
            forall|k: int|
                0 <= k < i ==> is_function_record(#[trigger] methods.deep_view()[k], c@.methods[k]),
        decreases c.methods.len() - i,
    {
        let ghost before = methods.deep_view();
        let record = function_record(&c.methods[i]);
        methods.push(record);
        assert(methods.deep_view() =~= before.push(record@));
        i += 1;
    }
    ClassRecord { name: c.name.clone(), methods }
}

/// The record of a module.
pub fn module_record(m: &TsModule) -> (r: ModuleRecord)
    ensures
        is_module_record(r@, m@),
{
    let mut functions: Vec<FunctionRecord> = Vec::new();
    let mut i: usize = 0;
    while i < m.functions.len()
        invariant
            i <= m.functions.len(),
            functions.len() == i,
            forall|k: int|
                0 <= k < i ==> is_function_record(
                    #[trigger] functions.deep_view()[k],
                    m@.functions[k],
                ),
        decreases m.functions.len() - i,
    {
        let ghost before = functions.deep_view();
        let record = function_record(&m.functions[i]);
        functions.push(record);
        assert(functions.deep_view() =~= before.push(record@));
        i += 1;
    }
    let mut classes: Vec<ClassRecord> = Vec::new();
    let mut j: usize = 0;
    while j < m.classes.len()
        invariant
            j <= m.classes.len(),
            classes.len() == j,
            forall|k: int|
                0 <= k < j ==> is_class_record(#[trigger] classes.deep_view()[k], m@.classes[k]),
        decreases m.classes.len() - j,
    {
        let ghost before = classes.deep_view();
        let record = class_record(&m.classes[j]);
        classes.push(record);
        assert(classes.deep_view() =~= before.push(record@));
        j += 1;
    }
    ModuleRecord { name: m.name.clone(), functions, classes }
}

/// The records of a model, as a snapshot holds them.
pub fn to_records(modules: &[TsModule]) -> (records: Vec<ModuleRecord>)
    ensures
        is_snapshot(records.deep_view(), modules.deep_view()),
        model_of(records.deep_view()) == modules.deep_view(),
{
    let mut records: Vec<ModuleRecord> = Vec::new();
    let mut i: usize = 0;
    while i < modules.len()
        invariant
            i <= modules.len(),
            records.len() == i,
            forall|k: int|
                0 <= k < i ==> is_module_record(
                    #[trigger] records.deep_view()[k],
                    modules.deep_view()[k],
                ),
        decreases modules.len() - i,
    {
        let ghost before = records.deep_view();
        let record = module_record(&modules[i]);
        records.push(record);
        assert(records.deep_view() =~= before.push(record@));
        i += 1;
    }
    proof {
        lemma_snapshot_round_trip(records.deep_view(), modules.deep_view());
    }
    records
}

/// The function that a record gives.
pub fn function_from_record(r: &FunctionRecord) -> (f: TsFunction)
    ensures
        f@ == function_of(r@),
{
    let body = match &r.body {
        Some(b) => b.clone(),
        None => String::new(),
    };
    let mut meta = Meta::new();
    match &r.meta {
        Some(entries) => {
            let mut i: usize = 0;
            assert(entries.deep_view().take(0) =~= Seq::empty());
            while i < entries.len()
                invariant
                    i <= entries.len(),
                    meta@ == entries_map(entries.deep_view().take(i as int)),
                decreases entries.len() - i,
            {
                proof {
                    let next = entries.deep_view().take(i + 1);
                    assert(next.drop_last() =~= entries.deep_view().take(i as int));
                    assert(next.last() == entries.deep_view()[i as int]);
                }
                meta.insert(entries[i].0.clone(), copy_hint(&entries[i].1));
                i += 1;
            }
            assert(entries.deep_view().take(entries.len() as int) =~= entries.deep_view());
        },
        None => {},
    }
    TsFunction {
        name: r.name.clone(),
        args: copy_args(&r.args),
        return_type: r.return_type.clone(),
        body,
        meta,
    }
}

/// The class that a record gives.
pub fn class_from_record(r: &ClassRecord) -> (c: TsClass)
    ensures
        c@ == class_of(r@),
{
    let mut methods: Vec<TsFunction> = Vec::new();
    let mut i: usize = 0;
    while i < r.methods.len()
        invariant
            i <= r.methods.len(),
            methods.len() == i,
            forall|k: int| 0 <= k < i ==> methods.deep_view()[k] == function_of(r@.methods[k]),
        decreases r.methods.len() - i,
    {
        let ghost before = methods.deep_view();
        let f = function_from_record(&r.methods[i]);
        methods.push(f);
        assert(methods.deep_view() =~= before.push(f@));
        i += 1;
    }
    let c = TsClass { name: r.name.clone(), methods };
    assert(c@.methods =~= class_of(r@).methods);
    c
}

/// The module that a record gives.
pub fn module_from_record(r: &ModuleRecord) -> (m: TsModule)
    ensures
        m@ == module_of(r@),
{
    let mut functions: Vec<TsFunction> = Vec::new();
    let mut i: usize = 0;
    while i < r.functions.len()
        invariant
            i <= r.functions.len(),
            functions.len() == i,
            forall|k: int| 0 <= k < i ==> functions.deep_view()[k] == function_of(r@.functions[k]),
        decreases r.functions.len() - i,
    {
        let ghost before = functions.deep_view();
        let f = function_from_record(&r.functions[i]);
        functions.push(f);
        assert(functions.deep_view() =~= before.push(f@));
        i += 1;
    }
    let mut classes: Vec<TsClass> = Vec::new();
    let mut j: usize = 0;
    while j < r.classes.len()
        invariant
            j <= r.classes.len(),
            classes.len() == j,
            forall|k: int| 0 <= k < j ==> classes.deep_view()[k] == class_of(r@.classes[k]),
        decreases r.classes.len() - j,
    {
        let ghost before = classes.deep_view();
        let c = class_from_record(&r.classes[j]);
        classes.push(c);
        assert(classes.deep_view() =~= before.push(c@));
        j += 1;
    }
    let m = TsModule { name: r.name.clone(), functions, classes };
    assert(m@.functions =~= module_of(r@).functions);
    assert(m@.classes =~= module_of(r@).classes);
    m
}

/// The model that the records of a snapshot give.
pub fn from_records(records: &Vec<ModuleRecord>) -> (modules: Vec<TsModule>)
    ensures
        modules.deep_view() == model_of(records.deep_view()),
{
    let mut modules: Vec<TsModule> = Vec::new();
    let mut i: usize = 0;
    while i < records.len()
        invariant
            i <= records.len(),
            modules.len() == i,
            forall|k: int| 0 <= k < i ==> modules.deep_view()[k] == module_of(records.deep_view()[k]),
        decreases records.len() - i,
    {
        let ghost before = modules.deep_view();
        let m = module_from_record(&records[i]);
        modules.push(m);
        assert(modules.deep_view() =~= before.push(m@));
        i += 1;
    }
    assert(modules.deep_view() =~= model_of(records.deep_view()));
    modules
}

} // verus!
