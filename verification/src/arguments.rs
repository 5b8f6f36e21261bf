//! What the three artifacts have in common in how they list a function's
//! parameters.

use vstd::prelude::*;
use crate::declaration::{decl_arg, decl_params};
use crate::resolve::Policy;
use crate::shim::{arg_names, shim_params};
use crate::text::has_prefix;
use crate::wrapper::arg_tags;

verus! {

/// The declaration, the wrapper and the shim list the parameters of a
/// function one for one and in the model's order: each of their lists has as
/// many entries as the function has parameters, and the entry at a position
/// is made of the parameter at that position, which it names first.
pub proof fn lemma_arguments_preserved(
    args: Seq<(Seq<char>, Seq<char>)>,
    self_type: Option<Seq<char>>,
    policy: Policy,
)
    ensures
        decl_params(args, self_type, policy).len() == args.len(),
        shim_params(args).len() == args.len(),
        arg_names(args).len() == args.len(),
        arg_tags(args).len() == args.len(),
        forall|i: int|
            0 <= i < args.len() ==> {
                &&& (#[trigger] decl_params(args, self_type, policy)[i]) == decl_arg(
                    args[i],
                    self_type,
                    policy,
                )
                &&& has_prefix(decl_params(args, self_type, policy)[i], args[i].0)
                &&& has_prefix(shim_params(args)[i], args[i].0)
                &&& arg_names(args)[i] == args[i].0
            },
{
    assert forall|i: int| 0 <= i < args.len() implies {
        &&& (#[trigger] decl_params(args, self_type, policy)[i]) == decl_arg(
            args[i],
            self_type,
            policy,
        )
        &&& has_prefix(decl_params(args, self_type, policy)[i], args[i].0)
        &&& has_prefix(shim_params(args)[i], args[i].0)
        &&& arg_names(args)[i] == args[i].0
    } by {
        let name = args[i].0;
        let d = decl_params(args, self_type, policy)[i];
        assert(d.subrange(0, name.len() as int) =~= name);
        let s = shim_params(args)[i];
        assert(s.subrange(0, name.len() as int) =~= name);
    }
}

} // verus!
