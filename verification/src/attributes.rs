//! The decisions behind Calico's attribute macros `#[calico::test]` and
//! `#[calico::setup]`, on the plain values that the macros read from the
//! annotated items, and the per-function rules of the test-suite macro
//! `#[calico::tests]`. The naming and description choices are those the
//! test-suite macro makes too.

use vstd::prelude::*;

use crate::text::push_str;

verus! {

/// The name of a test or test suite: the `name` argument of the macro where
/// one is given, else the name of the annotated item.
pub fn test_name(item_name: String, name_arg: Option<String>) -> (name: String)
    ensures
        name == match name_arg {
            Some(n) => n,
            None => item_name,
        },
{
    match name_arg {
        Some(name) => name,
        None => item_name,
    }
}

/// The doc comment lines, each followed by a line break.
pub open spec fn docs_text(docs: Seq<String>) -> Seq<char>
    decreases docs.len(),
{
    if docs.len() == 0 {
        Seq::empty()
    } else {
        docs_text(docs.drop_last()) + docs.last()@ + "\n"@
    }
}

/// The description of a test taken from its doc comments: the doc strings in
/// order, each followed by a line break (preserving the line breaks of
/// multi-line `///` comments).
pub fn doc_description(docs: &Vec<String>) -> (desc: String)
    ensures
        desc@ == docs_text(docs@),
{
    let mut desc = String::new();
    let mut i: usize = 0;
    while i < docs.len()
        invariant
            i <= docs.len(),
            desc@ == docs_text(docs@.take(i as int)),
        decreases docs.len() - i,
    {
        proof {
            assert(docs@.take(i + 1).drop_last() =~= docs@.take(i as int));
        }
        push_str(&mut desc, docs[i].as_str());
        push_str(&mut desc, "\n");
        i += 1;
    }
    assert(docs@.take(i as int) =~= docs@);
    desc
}

/// Injects the test start marker as the first statement of a test body and
/// the test end marker before the body's last statement (its tail); an empty
/// body becomes the start marker followed by the end marker.
pub fn instrument_test_body<T>(stmts: &mut Vec<T>, start: T, end: T)
    ensures
        old(stmts)@.len() == 0 ==> final(stmts)@ == seq![start, end],
        old(stmts)@.len() > 0 ==> final(stmts)@ == (seq![start] + old(stmts)@).insert(
            old(stmts)@.len() as int,
            end,
        ),
{
    let empty = stmts.len() == 0;
    stmts.insert(0, start);
    if empty {
        stmts.push(end);
        assert(stmts@ =~= seq![start, end]);
    } else {
        let at = stmts.len() - 1;
        stmts.insert(at, end);
        assert(old(stmts)@.insert(0, start) =~= seq![start] + old(stmts)@);
    }
}

/// The shape of a function signature, as far as `#[calico::setup]` checks it.
#[derive(Clone, Copy, PartialEq, Eq, Structural, Debug)]
pub struct SetupSignature {
    pub is_const: bool,
    pub is_async: bool,
    pub is_unsafe: bool,
    pub has_abi: bool,
    pub has_generic_params: bool,
    pub has_where_clause: bool,
    pub is_variadic: bool,
    pub has_inputs: bool,
    pub returns_value: bool,
}

/// A setup function must have the signature `fn() -> ()`: not const, async or
/// unsafe, no ABI, no generics or `where` clause, not variadic, no inputs and
/// no return type.
pub fn setup_signature_is_valid(sig: &SetupSignature) -> (ok: bool)
    ensures
        ok == !(sig.is_const || sig.is_async || sig.is_unsafe || sig.has_abi || sig.has_generic_params
            || sig.has_where_clause || sig.is_variadic || sig.has_inputs || sig.returns_value),
{
    !(sig.is_const || sig.is_async || sig.is_unsafe || sig.has_abi || sig.has_generic_params
        || sig.has_where_clause || sig.is_variadic || sig.has_inputs || sig.returns_value)
}

/// Whether an attribute name keeps the setup function from being discovered:
/// `export_name` and `no_mangle` are set by the macro itself.
pub open spec fn is_rejected_setup_attribute(name: Seq<char>) -> bool {
    name == "export_name"@ || name == "no_mangle"@
}

/// The position of the first attribute at or after `i` whose (single
/// identifier) name is rejected on a setup function.
pub open spec fn first_rejected_from(idents: Seq<Option<String>>, i: int) -> Option<int>
    decreases idents.len() - i,
{
    if i < 0 || i >= idents.len() {
        None
    } else if idents[i] matches Some(name) && is_rejected_setup_attribute(name@) {
        Some(i)
    } else {
        first_rejected_from(idents, i + 1)
    }
}

/// The first attribute of a setup function that cannot be used together with
/// `#[setup]`; `idents[i]` is the name of attribute `i` where its path is a
/// single identifier.
pub fn setup_rejected_attribute(idents: &Vec<Option<String>>) -> (r: Option<usize>)
    ensures
        match first_rejected_from(idents@, 0) {
            None => r is None,
            Some(i) => r == Some(i as usize),
        },
{
    let export_name = String::from_str("export_name");
    let no_mangle = String::from_str("no_mangle");
    let mut i: usize = 0;
    while i < idents.len()
        invariant
            i <= idents.len(),
            export_name@ == "export_name"@,
            no_mangle@ == "no_mangle"@,
            first_rejected_from(idents@, 0) == first_rejected_from(idents@, i as int),
        decreases idents.len() - i,
    {
        let rejected = match &idents[i] {
            Some(name) => *name == export_name || *name == no_mangle,
            None => false,
        };
        if rejected {
            return Some(i);
        }
        i += 1;
    }
    None
}


/// `#[calico::setup]` takes no arguments: it is accepted exactly where none
/// are given.
pub fn setup_arguments_accepted(has_arguments: bool) -> (ok: bool)
    ensures
        ok == !has_arguments,
{
    !has_arguments
}

/// An attribute that marks or configures a function of a test suite module
/// (`#[calico::tests]`).
pub enum SuiteAttribute {
    /// `#[init]`: the function initializes the state handed to the tests.
    Init,
    /// `#[test]`, or `#[test(init = f)]` with an init function of its own.
    Test { init: Option<String> },
    /// `#[should_panic]`: the test is expected to panic.
    ShouldPanic,
    /// `#[ignore]`: the test is skipped.
    Ignore,
    /// `#[timeout(n)]`: the test times out after `n` seconds.
    Timeout(u32),
}

/// The shape of the signature of a function in a test suite module.
#[derive(Clone, Copy, PartialEq, Eq, Structural, Debug)]
pub struct SuiteSignature {
    pub is_const: bool,
    pub is_async: bool,
    pub is_unsafe: bool,
    pub has_abi: bool,
    pub has_generic_params: bool,
    pub has_where_clause: bool,
    pub is_variadic: bool,
    /// The number of parameters.
    pub inputs: usize,
    /// Whether the first parameter is a typed value, not a reference (or `self`).
    pub first_input_is_value: bool,
    /// Whether the function declares a return type.
    pub returns_value: bool,
}

/// A validated `#[init]` function.
pub struct InitFunction {
    pub is_async: bool,
    /// Whether it returns state that is passed to the tests.
    pub returns_state: bool,
}

/// A validated `#[test]` function of a suite.
pub struct TestFunction {
    pub should_panic: bool,
    pub ignore: bool,
    pub timeout: Option<u32>,
    /// The init function named by `#[test(init = f)]`, if any.
    pub custom_init: Option<String>,
    pub is_async: bool,
    /// Whether it takes the state of the init function.
    pub takes_state: bool,
}

/// A function of a test suite module, by its role.
pub enum SuiteFunction {
    Init(InitFunction),
    Test(TestFunction),
    /// A function that is neither; it is kept as it is.
    Other,
}

/// Why a function of a test suite module is refused.
pub enum SuiteError {
    /// A function can only be marked with one of `#[init]` or `#[test]`; the
    /// attribute at this position marks it a second time.
    MarkedTwice(usize),
    /// The `#[init]` function can not have the attribute at this position.
    InitAttribute(usize),
    /// `#[init]` function must have signature `async fn() [-> Type]`.
    InitSignature,
    /// `#[init]` function can only be async if an async executor is enabled.
    InitAsyncWithoutExecutor,
    /// `#[test]` function must have signature `async fn(state: Type)`.
    TestSignature,
    /// `#[test]` function can only be async if an async executor is enabled.
    TestAsyncWithoutExecutor,
    /// The state parameter must be a single value, not a reference.
    StateByReference,
    /// Only `#[test]` or `#[init]` functions can have such an attribute.
    OtherAttribute,
}

/// Whether `a` marks the role of a function.
pub open spec fn is_mark(a: SuiteAttribute) -> bool {
    a is Init || a is Test
}

/// The position of the first marking attribute at or after `i`.
pub open spec fn first_mark_from(attrs: Seq<SuiteAttribute>, i: int) -> Option<int>
    decreases attrs.len() - i,
{
    if i < 0 || i >= attrs.len() {
        None
    } else if is_mark(attrs[i]) {
        Some(i)
    } else {
        first_mark_from(attrs, i + 1)
    }
}

/// The position of the first attribute at or after `i` other than `#[init]`.
pub open spec fn first_non_init_from(attrs: Seq<SuiteAttribute>, i: int) -> Option<int>
    decreases attrs.len() - i,
{
    if i < 0 || i >= attrs.len() {
        None
    } else if !(attrs[i] is Init) {
        Some(i)
    } else {
        first_non_init_from(attrs, i + 1)
    }
}

/// Not const, not unsafe, no ABI, no generics or `where` clause, not variadic
/// (parameters and return type are checked apart).
pub open spec fn is_plain_signature(sig: SuiteSignature) -> bool {
    !sig.is_const && !sig.is_unsafe && !sig.has_abi && !sig.has_generic_params
        && !sig.has_where_clause && !sig.is_variadic
}

/// The last `#[timeout(n)]` among `attrs`.
pub open spec fn last_timeout(attrs: Seq<SuiteAttribute>) -> Option<u32>
    decreases attrs.len(),
{
    if attrs.len() == 0 {
        None
    } else if let SuiteAttribute::Timeout(t) = attrs.last() {
        Some(t)
    } else {
        last_timeout(attrs.drop_last())
    }
}

/// Whether some attribute among `attrs` is `#[should_panic]`.
pub open spec fn has_should_panic(attrs: Seq<SuiteAttribute>) -> bool {
    exists|i: int| 0 <= i < attrs.len() && attrs[i] is ShouldPanic
}

/// Whether some attribute among `attrs` is `#[ignore]`.
pub open spec fn has_ignore(attrs: Seq<SuiteAttribute>) -> bool {
    exists|i: int| 0 <= i < attrs.len() && attrs[i] is Ignore
}

/// Validating an `#[init]` function.
pub open spec fn init_outcome(attrs: Seq<SuiteAttribute>, sig: SuiteSignature, async_executor: bool) -> Result<SuiteFunction, SuiteError> {
    match first_non_init_from(attrs, 0) {
        Some(i) => Err(SuiteError::InitAttribute(i as usize)),
        None => if !is_plain_signature(sig) || sig.inputs > 0 {
            Err(SuiteError::InitSignature)
        } else if !async_executor && sig.is_async {
            Err(SuiteError::InitAsyncWithoutExecutor)
        } else {
            Ok(SuiteFunction::Init(InitFunction { is_async: sig.is_async, returns_state: sig.returns_value }))
        },
    }
}

/// Validating a `#[test]` function marked by `mark`.
pub open spec fn test_outcome(attrs: Seq<SuiteAttribute>, mark: SuiteAttribute, sig: SuiteSignature, async_executor: bool) -> Result<SuiteFunction, SuiteError> {
    if !is_plain_signature(sig) || sig.inputs > 1 {
        Err(SuiteError::TestSignature)
    } else if !async_executor && sig.is_async {
        Err(SuiteError::TestAsyncWithoutExecutor)
    } else if sig.inputs == 1 && !sig.first_input_is_value {
        Err(SuiteError::StateByReference)
    } else {
        Ok(SuiteFunction::Test(TestFunction {
            should_panic: has_should_panic(attrs),
            ignore: has_ignore(attrs),
            timeout: last_timeout(attrs),
            custom_init: mark->Test_init,
            is_async: sig.is_async,
            takes_state: sig.inputs == 1,
        }))
    }
}

/// Validating a function of a test suite module: its role comes from its
/// one marking attribute (`#[init]` or `#[test]`); a function without one
/// is kept as it is and may carry no suite attribute.
pub open spec fn suite_function_outcome(attrs: Seq<SuiteAttribute>, sig: SuiteSignature, async_executor: bool) -> Result<SuiteFunction, SuiteError> {
    match first_mark_from(attrs, 0) {
        None => if attrs.len() > 0 {
            Err(SuiteError::OtherAttribute)
        } else {
            Ok(SuiteFunction::Other)
        },
        Some(f) => match first_mark_from(attrs, f + 1) {
            Some(k) => Err(SuiteError::MarkedTwice(k as usize)),
            None => if attrs[f] is Init {
                init_outcome(attrs, sig, async_executor)
            } else {
                test_outcome(attrs, attrs[f], sig, async_executor)
            },
        },
    }
}

/// The first marking attribute at or after `from`.
fn find_mark(attrs: &Vec<SuiteAttribute>, from: usize) -> (r: Option<usize>)
    requires
        from <= attrs.len(),
    ensures
        match first_mark_from(attrs@, from as int) {
            None => r is None,
            Some(i) => from <= i < attrs.len() && r == Some(i as usize),
        },
        r matches Some(i) ==> from <= i < attrs.len() && is_mark(attrs@[i as int]),
{
    let mut i = from;
    while i < attrs.len()
        invariant
            from <= i <= attrs.len(),
            first_mark_from(attrs@, from as int) == first_mark_from(attrs@, i as int),
        decreases attrs.len() - i,
    {
        let marks = match &attrs[i] {
            SuiteAttribute::Init => true,
            SuiteAttribute::Test { .. } => true,
            _ => false,
        };
        if marks {
            return Some(i);
        }
        i += 1;
    }
    None
}

/// Validates an `#[init]` function.
fn validate_init(attrs: &Vec<SuiteAttribute>, sig: &SuiteSignature, async_executor: bool) -> (r: Result<SuiteFunction, SuiteError>)
    ensures
        r == init_outcome(attrs@, *sig, async_executor),
{
    let mut i: usize = 0;
    while i < attrs.len()
        invariant
            i <= attrs.len(),
            first_non_init_from(attrs@, 0) == first_non_init_from(attrs@, i as int),
        decreases attrs.len() - i,
    {
        let is_init = match &attrs[i] {
            SuiteAttribute::Init => true,
            _ => false,
        };
        if !is_init {
            return Err(SuiteError::InitAttribute(i));
        }
        i += 1;
    }
    let plain = !sig.is_const && !sig.is_unsafe && !sig.has_abi && !sig.has_generic_params
        && !sig.has_where_clause && !sig.is_variadic;
    if !plain || sig.inputs > 0 {
        Err(SuiteError::InitSignature)
    } else if !async_executor && sig.is_async {
        Err(SuiteError::InitAsyncWithoutExecutor)
    } else {
        Ok(SuiteFunction::Init(InitFunction { is_async: sig.is_async, returns_state: sig.returns_value }))
    }
}

/// Validates a `#[test]` function whose marking attribute carries `custom_init`.
fn validate_test(attrs: &Vec<SuiteAttribute>, custom_init: Option<String>, sig: &SuiteSignature, async_executor: bool) -> (r: Result<SuiteFunction, SuiteError>)
    ensures
        r == test_outcome(attrs@, SuiteAttribute::Test { init: custom_init }, *sig, async_executor),
{
    let mut should_panic = false;
    let mut ignore = false;
    let mut timeout: Option<u32> = None;
    let mut i: usize = 0;
    while i < attrs.len()
        invariant
            i <= attrs.len(),
            should_panic == has_should_panic(attrs@.take(i as int)),
            ignore == has_ignore(attrs@.take(i as int)),
            timeout == last_timeout(attrs@.take(i as int)),
        decreases attrs.len() - i,
    {
        let ghost before = attrs@.take(i as int);
        let ghost after = attrs@.take(i + 1);
        assert(after.drop_last() =~= before);
        assert(after.last() == attrs@[i as int]);
        match &attrs[i] {
            SuiteAttribute::ShouldPanic => {
                should_panic = true;
                assert(after[i as int] is ShouldPanic);
            },
            SuiteAttribute::Ignore => {
                ignore = true;
                assert(after[i as int] is Ignore);
            },
            SuiteAttribute::Timeout(t) => {
                timeout = Some(*t);
            },
            _ => {},
        }
        assert(should_panic == has_should_panic(after)) by {
            if has_should_panic(after) && !(attrs@[i as int] is ShouldPanic) {
                let j = choose|j: int| 0 <= j < after.len() && after[j] is ShouldPanic;
                assert(before[j] is ShouldPanic);
            }
            if has_should_panic(before) {
                let j = choose|j: int| 0 <= j < before.len() && before[j] is ShouldPanic;
                assert(after[j] is ShouldPanic);
            }
        }
        assert(ignore == has_ignore(after)) by {
            if has_ignore(after) && !(attrs@[i as int] is Ignore) {
                let j = choose|j: int| 0 <= j < after.len() && after[j] is Ignore;
                assert(before[j] is Ignore);
            }
            if has_ignore(before) {
                let j = choose|j: int| 0 <= j < before.len() && before[j] is Ignore;
                assert(after[j] is Ignore);
            }
        }
        i += 1;
    }
    assert(attrs@.take(i as int) =~= attrs@);
    let plain = !sig.is_const && !sig.is_unsafe && !sig.has_abi && !sig.has_generic_params
        && !sig.has_where_clause && !sig.is_variadic;
    if !plain || sig.inputs > 1 {
        Err(SuiteError::TestSignature)
    } else if !async_executor && sig.is_async {
        Err(SuiteError::TestAsyncWithoutExecutor)
    } else if sig.inputs == 1 && !sig.first_input_is_value {
        Err(SuiteError::StateByReference)
    } else {
        Ok(SuiteFunction::Test(TestFunction {
            should_panic,
            ignore,
            timeout,
            custom_init,
            is_async: sig.is_async,
            takes_state: sig.inputs == 1,
        }))
    }
}

/// Validates a function of a test suite module from its suite attributes, in
/// order, and the shape of its signature; `async_executor` tells whether an
/// async executor is enabled.
pub fn validate_suite_function(attrs: &Vec<SuiteAttribute>, sig: &SuiteSignature, async_executor: bool) -> (r: Result<SuiteFunction, SuiteError>)
    ensures
        r == suite_function_outcome(attrs@, *sig, async_executor),
{
    match find_mark(attrs, 0) {
        None => {
            if attrs.len() > 0 {
                Err(SuiteError::OtherAttribute)
            } else {
                Ok(SuiteFunction::Other)
            }
        },
        Some(f) => match find_mark(attrs, f + 1) {
            Some(k) => Err(SuiteError::MarkedTwice(k)),
            None => match &attrs[f] {
                SuiteAttribute::Init => validate_init(attrs, sig, async_executor),
                SuiteAttribute::Test { init } => {
                    let custom_init = match init {
                        Some(name) => Some(name.clone()),
                        None => None,
                    };
                    validate_test(attrs, custom_init, sig, async_executor)
                },
                _ => {
                    // `find_mark` only finds marking attributes.
                    proof {
                        assert(false);
                    }
                    Err(SuiteError::OtherAttribute)
                },
            },
        },
    }
}


/// The first attribute at or after `i` whose name is rejected lies no later
/// than any attribute named `export_name` or `no_mangle` at or after `i`, and
/// carries one of those names.
proof fn lemma_rejected_from(idents: Seq<Option<String>>, i: int, k: int)
    requires
        0 <= i <= k < idents.len(),
        idents[k] matches Some(name) && (name@ == "export_name"@ || name@ == "no_mangle"@),
    ensures
        first_rejected_from(idents, i) matches Some(j) && i <= j <= k,
    decreases k - i,
{
    if i < k {
        lemma_rejected_from(idents, i + 1, k);
    }
}

/// The attribute found at or after `i`, if any, is named `export_name` or
/// `no_mangle`, and no attribute before it (from `i` on) is.
proof fn lemma_rejected_found(idents: Seq<Option<String>>, i: int)
    requires
        0 <= i,
    ensures
        first_rejected_from(idents, i) matches Some(j) ==> i <= j < idents.len() && (
        idents[j] matches Some(name) && (name@ == "export_name"@ || name@ == "no_mangle"@)),
        first_rejected_from(idents, i) is None ==> forall|k: int|
            i <= k < idents.len() ==> !(#[trigger] idents[k] matches Some(name) && (name@
                == "export_name"@ || name@ == "no_mangle"@)),
    decreases idents.len() - i,
{
    if i < idents.len() {
        lemma_rejected_found(idents, i + 1);
    }
}

/// A setup function may carry neither `#[export_name]` nor `#[no_mangle]`
/// (the macro sets them itself): where any attribute has one of those names,
/// an attribute no later than it is reported, and what is reported always
/// has one of those names; where none has, nothing is reported.
pub proof fn lemma_setup_rejects_export_attributes(idents: Seq<Option<String>>)
    ensures
        forall|k: int|
            0 <= k < idents.len() && (#[trigger] idents[k] matches Some(name) && (name@
                == "export_name"@ || name@ == "no_mangle"@)) ==> (first_rejected_from(idents, 0) matches Some(j) && j <= k),
        first_rejected_from(idents, 0) matches Some(j) ==> 0 <= j < idents.len() && (
        idents[j] matches Some(name) && (name@ == "export_name"@ || name@ == "no_mangle"@)),
        first_rejected_from(idents, 0) is None ==> forall|k: int|
            0 <= k < idents.len() ==> !(#[trigger] idents[k] matches Some(name) && (name@
                == "export_name"@ || name@ == "no_mangle"@)),
{
    lemma_rejected_found(idents, 0);
    assert forall|k: int|
        0 <= k < idents.len() && (#[trigger] idents[k] matches Some(name) && (name@
            == "export_name"@ || name@ == "no_mangle"@)) implies (first_rejected_from(idents, 0) matches Some(j) && j <= k) by {
        lemma_rejected_from(idents, 0, k);
    }
}

/// A validated suite function keeps the shape of its signature: an init
/// function is async exactly where its signature is and returns state exactly
/// where it declares a return type, and it takes no parameter; a test is
/// async exactly where its signature is and takes the state exactly where it
/// has one parameter. A function carrying no suite attribute is kept as it is.
pub proof fn lemma_suite_function_keeps_signature(attrs: Seq<SuiteAttribute>, sig: SuiteSignature, async_executor: bool)
    ensures
        suite_function_outcome(attrs, sig, async_executor) matches Ok(SuiteFunction::Init(f)) ==> f.is_async
            == sig.is_async && f.returns_state == sig.returns_value && sig.inputs == 0 && (sig.is_async
            ==> async_executor),
        suite_function_outcome(attrs, sig, async_executor) matches Ok(SuiteFunction::Test(t)) ==> t.is_async
            == sig.is_async && t.takes_state == (sig.inputs == 1) && sig.inputs <= 1 && (sig.is_async
            ==> async_executor),
        attrs.len() == 0 ==> suite_function_outcome(attrs, sig, async_executor) matches Ok(SuiteFunction::Other),
{
}

} // verus!
