//! The annotation collector: it takes the annotated declarations in the
//! order in which they are met and builds the model from them.

use vstd::prelude::*;
use vstd::string::*;
use crate::model::{FunctionView, Meta, MetaValue, MetaValueView, ModuleView, TsFunction, TsModule};
use crate::registry::{register_class, register_function, register_module, with_class, with_function, with_module};
use crate::syntax::{
    attribute_value,
    body_text,
    extract_args,
    extract_return_type,
    extracted_args,
    named_value,
    parse_body_attr,
    plain_ident,
    return_text,
    type_ident,
    Attribute,
    Signature,
    TypeExpr,
};
use crate::text::str_eq;
use crate::wrapper::{any_string_arg, has_string_arg};

verus! {

/// Why an annotated declaration was turned down.
#[derive(Clone, Copy, Debug, PartialEq, Eq, Structural)]
pub enum CollectError {
    /// The argument of a module annotation is neither empty nor `name = "..."`.
    MalformedAnnotation,
}

/// The model under construction, with the module and the class that the
/// next declarations belong to.
#[derive(Clone, Debug)]
pub struct Collector {
    pub modules: Vec<TsModule>,
    pub current_module: Option<String>,
    pub current_class: Option<String>,
}

/// What a [`Collector`] stands for.
pub struct CollectorView {
    pub modules: Seq<ModuleView>,
    pub current_module: Option<Seq<char>>,
    pub current_class: Option<Seq<char>>,
}

impl View for Collector {
    type V = CollectorView;

    open spec fn view(&self) -> CollectorView {
        CollectorView {
            modules: self.modules.deep_view(),
            current_module: self.current_module.deep_view(),
            current_class: self.current_class.deep_view(),
        }
    }
}

/// The hints that a function gets when it is collected: `requires_cwrap`
/// where a parameter is a string, `is_async` where it is named `init` or `load`.
pub open spec fn derived_meta(name: Seq<char>, args: Seq<(Seq<char>, Seq<char>)>) -> Map<
    Seq<char>,
    MetaValueView,
> {
    let none = Map::<Seq<char>, MetaValueView>::empty();
    let first = if has_string_arg(args) {
        none.insert("requires_cwrap"@, MetaValueView::Flag(true))
    } else {
        none
    };
    if name == "init"@ || name == "load"@ {
        first.insert("is_async"@, MetaValueView::Flag(true))
    } else {
        first
    }
}

/// The hints of a function with this name and these parameters.
pub fn derive_function_meta(name: &str, args: &[(String, String)]) -> (meta: Meta)
    ensures
        meta@ == derived_meta(name@, args.deep_view()),
{
    let mut meta = Meta::new();
    if any_string_arg(args) {
        meta.insert(String::from_str("requires_cwrap"), MetaValue::Flag(true));
    }
    if str_eq(name, "init") || str_eq(name, "load") {
        meta.insert(String::from_str("is_async"), MetaValue::Flag(true));
    }
    meta
}

/// The name that a module annotation gives: none for an empty argument, the
/// string of `name = "..."`, and an error for any other argument.
pub open spec fn module_name_of(attr: Attribute) -> Result<Option<Seq<char>>, CollectError> {
    match attr {
        Attribute::Empty => Ok(None),
        _ => match named_value(attr, "name"@) {
            Some(n) => Ok(Some(n)),
            None => Err(CollectError::MalformedAnnotation),
        },
    }
}

/// The name that a module annotation gives.
pub fn parse_tsmodule_name(attr: &Attribute) -> (r: Result<Option<String>, CollectError>)
    ensures
        match module_name_of(*attr) {
            Ok(given) => r is Ok && r->Ok_0.deep_view() == given,
            Err(e) => r == Err::<Option<String>, CollectError>(e),
        },
{
    match attr {
        Attribute::Empty => Ok(None),
        _ => match attribute_value(attr, "name") {
            Some(n) => Ok(Some(n)),
            None => Err(CollectError::MalformedAnnotation),
        },
    }
}

/// The function that the model keeps for an annotated function.
pub open spec fn collected_function(attr: Attribute, sig: Signature) -> FunctionView {
    FunctionView {
        name: sig.ident@,
        args: extracted_args(sig.inputs@),
        return_type: return_text(sig.output),
        body: body_text(attr),
        meta: derived_meta(sig.ident@, extracted_args(sig.inputs@)),
    }
}

/// The function that the model keeps for an annotated function.
pub fn collect_function(attr: &Attribute, sig: &Signature) -> (f: TsFunction)
    ensures
        f@ == collected_function(*attr, *sig),
{
    let args = extract_args(sig);
    let listed = args.as_slice();
    assert(listed.deep_view() =~= args.deep_view());
    let meta = derive_function_meta(sig.ident.as_str(), listed);
    TsFunction {
        name: sig.ident.clone(),
        args,
        return_type: extract_return_type(&sig.output),
        body: parse_body_attr(attr),
        meta,
    }
}

/// The collector after a module annotation on a module named `ident`.
pub open spec fn after_module(c: CollectorView, attr: Attribute, ident: Seq<char>) -> Result<
    CollectorView,
    CollectError,
> {
    match module_name_of(attr) {
        Err(e) => Err(e),
        Ok(given) => {
            let name = match given {
                Some(n) => n,
                None => ident,
            };
            Ok(
                CollectorView {
                    modules: with_module(c.modules, name),
                    current_module: Some(name),
                    current_class: None,
                },
            )
        },
    }
}

/// The collector after a class annotation on a class named `ident`, met
/// inside a module.
pub open spec fn after_class(c: CollectorView, ident: Seq<char>) -> CollectorView
    recommends
        c.current_module is Some,
{
    CollectorView {
        modules: with_class(c.modules, c.current_module->0, ident),
        current_module: c.current_module,
        current_class: Some(ident),
    }
}

/// The collector after an annotation on the methods of the type `self_ty`:
/// as after a class annotation where the type is one identifier, unchanged
/// where it is not.
pub open spec fn after_impl(c: CollectorView, self_ty: TypeExpr) -> CollectorView {
    match plain_ident(self_ty) {
        Some(ident) => after_class(c, ident),
        None => c,
    }
}

/// The collector after the function `f` was met inside a module: it goes to
/// the current class where there is one, else to the current module as a
/// free function.
pub open spec fn after_function(c: CollectorView, f: FunctionView) -> CollectorView
    recommends
        c.current_module is Some,
{
    CollectorView {
        modules: with_function(c.modules, c.current_module->0, c.current_class, f),
        current_module: c.current_module,
        current_class: c.current_class,
    }
}

impl Collector {
    /// A collector with an empty model and no current module.
    pub fn new() -> (c: Collector)
        ensures
            c@.modules == Seq::<ModuleView>::empty(),
            c@.current_module is None,
            c@.current_class is None,
    {
        let c = Collector { modules: Vec::new(), current_module: None, current_class: None };
        assert(c.modules.deep_view() =~= Seq::empty());
        c
    }

    /// A collector that goes on from an earlier model, with no current module.
    pub fn from_modules(modules: Vec<TsModule>) -> (c: Collector)
        ensures
            c@.modules == modules.deep_view(),
            c@.current_module is None,
            c@.current_class is None,
    {
        Collector { modules, current_module: None, current_class: None }
    }

    /// Takes a module annotation. The module is named by the annotation's
    /// argument, or by `ident` where that is empty. It is registered and
    /// becomes the current module; there is no current class after it. A
    /// malformed argument is an error and changes nothing.
    pub fn tsmodule(&mut self, attr: &Attribute, ident: &str) -> (r: Result<(), CollectError>)
        ensures
            match after_module(old(self)@, *attr, ident@) {
                Ok(next) => r is Ok && final(self)@ == next,
                Err(e) => r == Err::<(), CollectError>(e) && final(self)@ == old(self)@,
            },
    {
        match parse_tsmodule_name(attr) {
            Err(e) => Err(e),
            Ok(given) => {
                let name = match given {
                    Some(n) => n,
                    None => String::from_str(ident),
                };
                register_module(&mut self.modules, name.as_str());
                self.current_module = Some(name);
                self.current_class = None;
                Ok(())
            },
        }
    }

    /// Takes a class annotation. The class is registered in the current
    /// module and becomes the current class. A class can be met only inside a
    /// module.
    pub fn tsclass(&mut self, ident: &str)
        requires
            old(self)@.current_module is Some,
        ensures
            final(self)@ == after_class(old(self)@, ident@),
    {
        let module = match &self.current_module {
            None => unreached(),
            Some(m) => m.clone(),
        };
        register_class(&mut self.modules, module.as_str(), ident);
        self.current_class = Some(String::from_str(ident));
    }

    /// Takes an annotation on the methods of a type. Where the type is one
    /// identifier, it is taken as a class annotation on that identifier
    /// would be, and like that it can be met only inside a module; any other
    /// type changes nothing.
    pub fn tsimpl(&mut self, self_ty: &TypeExpr)
        requires
            plain_ident(*self_ty) is Some ==> old(self)@.current_module is Some,
        ensures
            final(self)@ == after_impl(old(self)@, *self_ty),
    {
        match type_ident(self_ty) {
            Some(ident) => self.tsclass(ident.as_str()),
            None => {},
        }
    }

    /// Takes an annotated function. It is registered in the current class
    /// where there is one, else as a free function of the current module,
    /// unless its container holds a function with its name and parameters.
    /// A function can be met only inside a module.
    pub fn tsfunction(&mut self, attr: &Attribute, sig: &Signature)
        requires
            old(self)@.current_module is Some,
        ensures
            final(self)@ == after_function(old(self)@, collected_function(*attr, *sig)),
    {
        let module = match &self.current_module {
            None => unreached(),
            Some(m) => m.clone(),
        };
        let function = collect_function(attr, sig);
        match &self.current_class {
            Some(c) => {
                let class = c.clone();
                register_function(
                    &mut self.modules,
                    module.as_str(),
                    Some(class.as_str()),
                    function,
                );
            },
            None => {
                register_function(&mut self.modules, module.as_str(), None, function);
            },
        }
    }
}

} // verus!
