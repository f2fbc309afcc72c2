//! What the attribute on a test function decides: which of its arguments
//! take effect, whether `#[test]` has to be added, and when the
//! declaration is refused.

use vstd::prelude::*;

verus! {

/// The kind of literal that an argument gives as its value.
#[derive(Clone, Copy, Debug, PartialEq, Eq, Structural)]
pub enum ValueKind {
    /// An integer literal.
    Integer,
    /// A string literal.
    Text,
    /// Any other literal.
    Other,
}

/// An argument of the attribute as contracts see it.
pub ghost enum ArgumentView {
    Named { name: Seq<char>, value: ValueKind },
    Unnamed,
}

/// One argument of the attribute.
#[derive(Debug, PartialEq, Eq)]
pub enum Argument {
    /// `name = value`, where `name` is a single identifier.
    Named {
        /// The identifier.
        name: String,
        /// The kind of the literal.
        value: ValueKind,
    },
    /// Anything else. It has no effect.
    Unnamed,
}

impl View for Argument {
    type V = ArgumentView;

    open spec fn view(&self) -> ArgumentView {
        match self {
            Argument::Named { name, value } => ArgumentView::Named { name: name@, value: *value },
            Argument::Unnamed => ArgumentView::Unnamed,
        }
    }
}

/// How the test function is to be rewritten.
#[derive(Clone, Copy, Debug, PartialEq, Eq)]
pub struct Expansion {
    /// The position of the argument whose value is the timeout, if any.
    pub timeout_from: Option<usize>,
    /// The position of the argument whose value names this crate, if any.
    pub crate_from: Option<usize>,
    /// Whether `#[test]` is to be added to the function.
    pub add_test_attribute: bool,
}

/// Why the declaration is refused.
#[derive(Clone, Copy, Debug, PartialEq, Eq)]
pub enum ExpansionError {
    /// The argument at this position has a name that the attribute does
    /// not know.
    InvalidAttribute(usize),
    /// The function is `async`.
    AsyncFunction,
}

/// What the arguments hold, as contracts see them.
pub open spec fn argument_views(args: Seq<Argument>) -> Seq<ArgumentView> {
    args.map_values(|a: Argument| a@)
}

/// What the names of the function's attributes hold: for each attribute
/// its name if that is a single identifier.
pub open spec fn attribute_names(names: Seq<Option<String>>) -> Seq<Option<Seq<char>>> {
    names.map_values(
        |n: Option<String>|
            match n {
                Some(s) => Some(s@),
                None => None,
            },
    )
}

/// Whether the argument sets the timeout: `timeout_ms` with an integer.
pub open spec fn sets_timeout(a: ArgumentView) -> bool {
    a matches ArgumentView::Named { name, value } && name == "timeout_ms"@ && value
        == ValueKind::Integer
}

/// Whether the argument names the crate: `crate` with a string.
pub open spec fn sets_crate(a: ArgumentView) -> bool {
    a matches ArgumentView::Named { name, value } && name == "crate"@ && value == ValueKind::Text
}

/// Whether the argument has a name that the attribute does not know.
pub open spec fn is_unknown(a: ArgumentView) -> bool {
    a matches ArgumentView::Named { name, value } && name != "timeout_ms"@ && name != "crate"@
}

/// Whether `at` is the position of the last argument that `wanted` holds
/// of; `None` where it holds of none.
pub open spec fn is_last(
    args: Seq<ArgumentView>,
    at: Option<usize>,
    wanted: spec_fn(ArgumentView) -> bool,
) -> bool {
    match at {
        Some(i) => i < args.len() && wanted(args[i as int]) && forall|j: int|
            i < j < args.len() ==> !wanted(#[trigger] args[j]),
        None => forall|j: int| 0 <= j < args.len() ==> !wanted(#[trigger] args[j]),
    }
}

/// Whether one of the function's attributes is `test`.
pub open spec fn has_test_attribute(names: Seq<Option<Seq<char>>>) -> bool {
    exists|k: int| 0 <= k < names.len() && #[trigger] names[k] == Some("test"@)
}

/// Whether every argument has a name that the attribute knows, or none.
pub open spec fn all_known(args: Seq<ArgumentView>) -> bool {
    forall|j: int| 0 <= j < args.len() ==> !is_unknown(#[trigger] args[j])
}

/// The two names that the attribute knows are different names.
pub proof fn lemma_keys_differ()
    ensures
        "timeout_ms"@ != "crate"@,
{
    reveal_strlit("timeout_ms");
    reveal_strlit("crate");
    assert("timeout_ms"@.len() == 10);
    assert("crate"@.len() == 5);
}

/// Decides how a test function is rewritten, from the arguments of the
/// attribute, the names of the attributes on the function, and whether
/// the function is `async`.
///
/// The first argument with an unknown name is refused. An `async`
/// function is refused. Otherwise the last `timeout_ms` with an integer
/// and the last `crate` with a string take effect, and `#[test]` is added
/// unless the function has it already.
pub fn resolve(args: &Vec<Argument>, names: &Vec<Option<String>>, is_async: bool) -> (r: Result<
    Expansion,
    ExpansionError,
>)
    ensures
        match r {
            Ok(expansion) => {
                &&& all_known(argument_views(args@))
                &&& !is_async
                &&& is_last(
                    argument_views(args@),
                    expansion.timeout_from,
                    |a: ArgumentView| sets_timeout(a),
                )
                &&& is_last(
                    argument_views(args@),
                    expansion.crate_from,
                    |a: ArgumentView| sets_crate(a),
                )
                &&& expansion.add_test_attribute == !has_test_attribute(attribute_names(names@))
            },
            Err(ExpansionError::InvalidAttribute(i)) => {
                &&& i < args@.len()
                &&& is_unknown(args@[i as int]@)
                &&& all_known(argument_views(args@.take(i as int)))
            },
            Err(ExpansionError::AsyncFunction) => all_known(argument_views(args@)) && is_async,
        },
{
    let timeout_key = "timeout_ms".to_owned();
    let crate_key = "crate".to_owned();
    let mut timeout_from: Option<usize> = None;
    let mut crate_from: Option<usize> = None;
    let mut i: usize = 0;
    while i < args.len()
        invariant
            i <= args@.len(),
            timeout_key@ == "timeout_ms"@,
            crate_key@ == "crate"@,
            all_known(argument_views(args@.take(i as int))),
            is_last(
                argument_views(args@.take(i as int)),
                timeout_from,
                |a: ArgumentView| sets_timeout(a),
            ),
            is_last(
                argument_views(args@.take(i as int)),
                crate_from,
                |a: ArgumentView| sets_crate(a),
            ),
        decreases args@.len() - i,
    {
        let ghost before = argument_views(args@.take(i as int));
        let ghost after = argument_views(args@.take(i + 1));
        assert(after.len() == i + 1);
        assert(after[i as int] == args@[i as int]@);
        assert forall|j: int| 0 <= j < i implies after[j] == before[j] by {}
        proof {
            lemma_keys_differ();
        }
        match &args[i] {
            Argument::Named { name, value } => {
                if *name == timeout_key {
                    if let ValueKind::Integer = value {
                        timeout_from = Some(i);
                    }
                } else if *name == crate_key {
                    if let ValueKind::Text = value {
                        crate_from = Some(i);
                    }
                } else {
                    return Err(ExpansionError::InvalidAttribute(i));
                }
            },
            Argument::Unnamed => {},
        }
        i += 1;
    }
    assert(args@.take(i as int) =~= args@);
    if is_async {
        return Err(ExpansionError::AsyncFunction);
    }
    let has_test = names_hold_test(names);
    Ok(Expansion { timeout_from, crate_from, add_test_attribute: !has_test })
}

/// Whether one of the names is `test`.
fn names_hold_test(names: &Vec<Option<String>>) -> (found: bool)
    ensures
        found == has_test_attribute(attribute_names(names@)),
{
    let test_key = "test".to_owned();
    let mut k: usize = 0;
    while k < names.len()
        invariant
            k <= names@.len(),
            test_key@ == "test"@,
            forall|j: int| 0 <= j < k ==> attribute_names(names@)[j] != Some("test"@),
        decreases names@.len() - k,
    {
        if let Some(name) = &names[k] {
            if *name == test_key {
                assert(attribute_names(names@)[k as int] == Some("test"@));
                return true;
            }
        }
        k += 1;
    }
    false
}

} // verus!
