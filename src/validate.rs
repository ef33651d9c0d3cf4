//! Semantic validation of an api: the first violation, in a fixed order.
use vstd::prelude::*;
use vstd::string::StrSliceExecFns;
use crate::ir::{Api, ErrorCode, ErrorDomain, Function, Module, Param};
use crate::text::text_eq;

verus! {

#[derive(Debug, Clone, PartialEq, Eq)]
pub enum ValidationError {
    NoModuleName,
    DuplicateModuleName(String),
    InvalidModuleName(String, &'static str),
    DuplicateFunctionName { module: String, function: String },
    DuplicateParamName { module: String, function: String, param: String },
    ReservedKeyword(String),
    AsyncNotSupported { module: String, function: String },
    ErrorDomainMissingName(String),
    DuplicateErrorName { module: String, name: String },
    DuplicateErrorCode { module: String, code: i32 },
    InvalidErrorCode { module: String, name: String },
    NameCollisionWithErrorDomain { module: String, name: String },
}

/// A validation error with its texts as character sequences.
pub ghost enum ValidationFault {
    NoModuleName,
    DuplicateModuleName(Seq<char>),
    InvalidModuleName(Seq<char>, Seq<char>),
    DuplicateFunctionName { module: Seq<char>, function: Seq<char> },
    DuplicateParamName { module: Seq<char>, function: Seq<char>, param: Seq<char> },
    ReservedKeyword(Seq<char>),
    AsyncNotSupported { module: Seq<char>, function: Seq<char> },
    ErrorDomainMissingName(Seq<char>),
    DuplicateErrorName { module: Seq<char>, name: Seq<char> },
    DuplicateErrorCode { module: Seq<char>, code: i32 },
    InvalidErrorCode { module: Seq<char>, name: Seq<char> },
    NameCollisionWithErrorDomain { module: Seq<char>, name: Seq<char> },
}

impl View for ValidationError {
    type V = ValidationFault;

    open spec fn view(&self) -> ValidationFault {
        match self {
            ValidationError::NoModuleName => ValidationFault::NoModuleName,
            ValidationError::DuplicateModuleName(n) => ValidationFault::DuplicateModuleName(n@),
            ValidationError::InvalidModuleName(n, why) => ValidationFault::InvalidModuleName(
                n@,
                why@,
            ),
            ValidationError::DuplicateFunctionName { module, function } =>
                ValidationFault::DuplicateFunctionName { module: module@, function: function@ },
            ValidationError::DuplicateParamName { module, function, param } =>
                ValidationFault::DuplicateParamName {
                module: module@,
                function: function@,
                param: param@,
            },
            ValidationError::ReservedKeyword(n) => ValidationFault::ReservedKeyword(n@),
            ValidationError::AsyncNotSupported { module, function } =>
                ValidationFault::AsyncNotSupported { module: module@, function: function@ },
            ValidationError::ErrorDomainMissingName(m) => ValidationFault::ErrorDomainMissingName(
                m@,
            ),
            ValidationError::DuplicateErrorName { module, name } =>
                ValidationFault::DuplicateErrorName { module: module@, name: name@ },
            ValidationError::DuplicateErrorCode { module, code } =>
                ValidationFault::DuplicateErrorCode { module: module@, code: *code },
            ValidationError::InvalidErrorCode { module, name } => ValidationFault::InvalidErrorCode {
                module: module@,
                name: name@,
            },
            ValidationError::NameCollisionWithErrorDomain { module, name } =>
                ValidationFault::NameCollisionWithErrorDomain { module: module@, name: name@ },
        }
    }
}

/// Whether a character has Unicode's White_Space property.
pub uninterp spec fn is_white_space(c: char) -> bool;

/// Relies on char::is_whitespace: true exactly for characters with the
/// White_Space property.
#[verifier::external_body]
fn char_is_whitespace(c: char) -> (r: bool)
    ensures
        r == is_white_space(c),
{
    c.is_whitespace()
}

/// A name that is empty or holds only whitespace.
pub open spec fn is_blank(s: Seq<char>) -> bool {
    forall|i: int| 0 <= i < s.len() ==> is_white_space(#[trigger] s[i])
}

/// The identifiers that no module, function or parameter may take.
pub open spec fn is_reserved(s: Seq<char>) -> bool {
    s == "if"@ || s == "else"@ || s == "for"@ || s == "while"@ || s == "loop"@ || s == "match"@
        || s == "type"@ || s == "return"@ || s == "async"@ || s == "await"@ || s == "break"@ || s
        == "continue"@ || s == "fn"@ || s == "struct"@ || s == "enum"@ || s == "mod"@ || s
        == "use"@
}

/// The reason given when a module takes a reserved identifier.
pub open spec fn reserved_reason() -> Seq<char> {
    "reserved word"@
}

/// The first fault of the parameters, checking each in order: a reserved
/// name, then a name taken by an earlier parameter.
pub open spec fn params_fault(module: Seq<char>, function: Seq<char>, ps: Seq<Param>) -> Option<
    ValidationFault,
>
    decreases ps.len(),
{
    if ps.len() == 0 {
        None
    } else {
        match params_fault(module, function, ps.drop_last()) {
            Some(e) => Some(e),
            None => {
                let p = ps.last();
                if is_reserved(p.name@) {
                    Some(ValidationFault::ReservedKeyword(p.name@))
                } else if exists|j: int| 0 <= j < ps.len() - 1 && #[trigger] ps[j].name@ == p.name@ {
                    Some(ValidationFault::DuplicateParamName { module, function, param: p.name@ })
                } else {
                    None
                }
            },
        }
    }
}

/// The first fault of a function: a reserved name, `async`, then its parameters.
pub open spec fn function_fault(module: Seq<char>, f: Function) -> Option<ValidationFault> {
    if is_reserved(f.name@) {
        Some(ValidationFault::ReservedKeyword(f.name@))
    } else if f.is_async {
        Some(ValidationFault::AsyncNotSupported { module, function: f.name@ })
    } else {
        params_fault(module, f.name@, f.params@)
    }
}

/// The first fault of the functions, checking each in order: a name taken
/// by an earlier function, then the function itself.
pub open spec fn functions_fault(module: Seq<char>, fs: Seq<Function>) -> Option<ValidationFault>
    decreases fs.len(),
{
    if fs.len() == 0 {
        None
    } else {
        match functions_fault(module, fs.drop_last()) {
            Some(e) => Some(e),
            None => {
                let f = fs.last();
                if exists|j: int| 0 <= j < fs.len() - 1 && #[trigger] fs[j].name@ == f.name@ {
                    Some(ValidationFault::DuplicateFunctionName { module, function: f.name@ })
                } else {
                    function_fault(module, f)
                }
            },
        }
    }
}

/// The first fault of the error codes, checking each in order: a zero code,
/// a name taken by an earlier code, a number taken by an earlier code.
pub open spec fn codes_fault(module: Seq<char>, cs: Seq<ErrorCode>) -> Option<ValidationFault>
    decreases cs.len(),
{
    if cs.len() == 0 {
        None
    } else {
        match codes_fault(module, cs.drop_last()) {
            Some(e) => Some(e),
            None => {
                let c = cs.last();
                if c.code == 0 {
                    Some(ValidationFault::InvalidErrorCode { module, name: c.name@ })
                } else if exists|j: int| 0 <= j < cs.len() - 1 && #[trigger] cs[j].name@ == c.name@ {
                    Some(ValidationFault::DuplicateErrorName { module, name: c.name@ })
                } else if exists|j: int| 0 <= j < cs.len() - 1 && #[trigger] cs[j].code == c.code {
                    Some(ValidationFault::DuplicateErrorCode { module, code: c.code })
                } else {
                    None
                }
            },
        }
    }
}

/// The first fault of an error domain of a module with functions `fs`.
pub open spec fn domain_fault(module: Seq<char>, fs: Seq<Function>, d: ErrorDomain) -> Option<
    ValidationFault,
> {
    if is_blank(d.name@) {
        Some(ValidationFault::ErrorDomainMissingName(module))
    } else if exists|j: int| 0 <= j < fs.len() && #[trigger] fs[j].name@ == d.name@ {
        Some(ValidationFault::NameCollisionWithErrorDomain { module, name: d.name@ })
    } else {
        codes_fault(module, d.codes@)
    }
}

/// The first fault of a module: its name, its functions, its error domain.
pub open spec fn module_fault(m: Module) -> Option<ValidationFault> {
    if is_blank(m.name@) {
        Some(ValidationFault::NoModuleName)
    } else if is_reserved(m.name@) {
        Some(ValidationFault::InvalidModuleName(m.name@, reserved_reason()))
    } else {
        match functions_fault(m.name@, m.functions@) {
            Some(e) => Some(e),
            None => match m.errors {
                Some(d) => domain_fault(m.name@, m.functions@, d),
                None => None,
            },
        }
    }
}

/// The first fault of the modules, checking each in order: a name taken by
/// an earlier module, then the module itself.
pub open spec fn modules_fault(ms: Seq<Module>) -> Option<ValidationFault>
    decreases ms.len(),
{
    if ms.len() == 0 {
        None
    } else {
        match modules_fault(ms.drop_last()) {
            Some(e) => Some(e),
            None => {
                let m = ms.last();
                if exists|j: int| 0 <= j < ms.len() - 1 && #[trigger] ms[j].name@ == m.name@ {
                    Some(ValidationFault::DuplicateModuleName(m.name@))
                } else {
                    module_fault(m)
                }
            },
        }
    }
}

/// The first fault of an api, `None` when it is well formed.
pub open spec fn api_fault(api: Api) -> Option<ValidationFault> {
    modules_fault(api.modules@)
}

/// Whether the result of a validation reports `fault`.
pub open spec fn reports(r: Result<(), ValidationError>, fault: Option<ValidationFault>) -> bool {
    match r {
        Ok(()) => fault is None,
        Err(e) => fault == Some(e@),
    }
}

fn is_reserved_word(s: &str) -> (r: bool)
    ensures
        r == is_reserved(s@),
{
    text_eq(s, "if") || text_eq(s, "else") || text_eq(s, "for") || text_eq(s, "while") || text_eq(
        s,
        "loop",
    ) || text_eq(s, "match") || text_eq(s, "type") || text_eq(s, "return") || text_eq(s, "async")
        || text_eq(s, "await") || text_eq(s, "break") || text_eq(s, "continue") || text_eq(s, "fn")
        || text_eq(s, "struct") || text_eq(s, "enum") || text_eq(s, "mod") || text_eq(s, "use")
}

fn is_blank_text(s: &str) -> (r: bool)
    ensures
        r == is_blank(s@),
{
    let n = s.unicode_len();
    let mut i: usize = 0;
    while i < n
        invariant
            n == s@.len(),
            i <= n,
            forall|k: int| 0 <= k < i ==> is_white_space(#[trigger] s@[k]),
        decreases n - i,
    {
        let c = s.get_char(i);
        if !char_is_whitespace(c) {
            return false;
        }
        i = i + 1;
    }
    true
}

proof fn lemma_params_fault_prefix(module: Seq<char>, function: Seq<char>, ps: Seq<Param>, k: int)
    requires
        0 <= k <= ps.len(),
        params_fault(module, function, ps.take(k)) is Some,
    ensures
        params_fault(module, function, ps) == params_fault(module, function, ps.take(k)),
    decreases ps.len(),
{
    if k < ps.len() {
        assert(ps.drop_last().take(k) =~= ps.take(k));
        lemma_params_fault_prefix(module, function, ps.drop_last(), k);
    } else {
        assert(ps.take(k) =~= ps);
    }
}

proof fn lemma_functions_fault_prefix(module: Seq<char>, fs: Seq<Function>, k: int)
    requires
        0 <= k <= fs.len(),
        functions_fault(module, fs.take(k)) is Some,
    ensures
        functions_fault(module, fs) == functions_fault(module, fs.take(k)),
    decreases fs.len(),
{
    if k < fs.len() {
        assert(fs.drop_last().take(k) =~= fs.take(k));
        lemma_functions_fault_prefix(module, fs.drop_last(), k);
    } else {
        assert(fs.take(k) =~= fs);
    }
}

proof fn lemma_codes_fault_prefix(module: Seq<char>, cs: Seq<ErrorCode>, k: int)
    requires
        0 <= k <= cs.len(),
        codes_fault(module, cs.take(k)) is Some,
    ensures
        codes_fault(module, cs) == codes_fault(module, cs.take(k)),
    decreases cs.len(),
{
    if k < cs.len() {
        assert(cs.drop_last().take(k) =~= cs.take(k));
        lemma_codes_fault_prefix(module, cs.drop_last(), k);
    } else {
        assert(cs.take(k) =~= cs);
    }
}

proof fn lemma_modules_fault_prefix(ms: Seq<Module>, k: int)
    requires
        0 <= k <= ms.len(),
        modules_fault(ms.take(k)) is Some,
    ensures
        modules_fault(ms) == modules_fault(ms.take(k)),
    decreases ms.len(),
{
    if k < ms.len() {
        assert(ms.drop_last().take(k) =~= ms.take(k));
        lemma_modules_fault_prefix(ms.drop_last(), k);
    } else {
        assert(ms.take(k) =~= ms);
    }
}

fn param_name_seen(ps: &[Param], i: usize) -> (r: bool)
    requires
        i < ps.len(),
    ensures
        r == exists|j: int| 0 <= j < i && #[trigger] ps@[j].name@ == ps@[i as int].name@,
{
    let mut j: usize = 0;
    while j < i
        invariant
            i < ps.len(),
            j <= i,
            forall|k: int| 0 <= k < j ==> #[trigger] ps@[k].name@ != ps@[i as int].name@,
        decreases i - j,
    {
        if ps[j].name == ps[i].name {
            return true;
        }
        j = j + 1;
    }
    false
}

fn function_name_seen(fs: &[Function], name: &String, i: usize) -> (r: bool)
    requires
        i <= fs.len(),
    ensures
        r == exists|j: int| 0 <= j < i && #[trigger] fs@[j].name@ == name@,
{
    let mut j: usize = 0;
    while j < i
        invariant
            i <= fs.len(),
            j <= i,
            forall|k: int| 0 <= k < j ==> #[trigger] fs@[k].name@ != name@,
        decreases i - j,
    {
        if fs[j].name == *name {
            return true;
        }
        j = j + 1;
    }
    false
}

fn code_name_seen(cs: &[ErrorCode], i: usize) -> (r: bool)
    requires
        i < cs.len(),
    ensures
        r == exists|j: int| 0 <= j < i && #[trigger] cs@[j].name@ == cs@[i as int].name@,
{
    let mut j: usize = 0;
    while j < i
        invariant
            i < cs.len(),
            j <= i,
            forall|k: int| 0 <= k < j ==> #[trigger] cs@[k].name@ != cs@[i as int].name@,
        decreases i - j,
    {
        if cs[j].name == cs[i].name {
            return true;
        }
        j = j + 1;
    }
    false
}

fn code_number_seen(cs: &[ErrorCode], i: usize) -> (r: bool)
    requires
        i < cs.len(),
    ensures
        r == exists|j: int| 0 <= j < i && #[trigger] cs@[j].code == cs@[i as int].code,
{
    let mut j: usize = 0;
    while j < i
        invariant
            i < cs.len(),
            j <= i,
            forall|k: int| 0 <= k < j ==> #[trigger] cs@[k].code != cs@[i as int].code,
        decreases i - j,
    {
        if cs[j].code == cs[i].code {
            return true;
        }
        j = j + 1;
    }
    false
}

fn module_name_seen(ms: &[Module], i: usize) -> (r: bool)
    requires
        i < ms.len(),
    ensures
        r == exists|j: int| 0 <= j < i && #[trigger] ms@[j].name@ == ms@[i as int].name@,
{
    let mut j: usize = 0;
    while j < i
        invariant
            i < ms.len(),
            j <= i,
            forall|k: int| 0 <= k < j ==> #[trigger] ms@[k].name@ != ms@[i as int].name@,
        decreases i - j,
    {
        if ms[j].name == ms[i].name {
            return true;
        }
        j = j + 1;
    }
    false
}

fn validate_param(p: &Param) -> (r: Result<(), ValidationError>)
    ensures
        reports(
            r,
            if is_reserved(p.name@) {
                Some(ValidationFault::ReservedKeyword(p.name@))
            } else {
                None
            },
        ),
{
    if is_reserved_word(p.name.as_str()) {
        return Err(ValidationError::ReservedKeyword(p.name.clone()));
    }
    Ok(())
}

fn validate_function(module: &Module, f: &Function) -> (r: Result<(), ValidationError>)
    ensures
        reports(r, function_fault(module.name@, *f)),
{
    if is_reserved_word(f.name.as_str()) {
        return Err(ValidationError::ReservedKeyword(f.name.clone()));
    }
    if f.is_async {
        return Err(
            ValidationError::AsyncNotSupported {
                module: module.name.clone(),
                function: f.name.clone(),
            },
        );
    }
    let ps = f.params.as_slice();
    let ghost mn = module.name@;
    let ghost fname = f.name@;
    let mut i: usize = 0;
    while i < ps.len()
        invariant
            ps@ == f.params@,
            i <= ps.len(),
            mn == module.name@,
            fname == f.name@,
            !is_reserved(fname),
            !f.is_async,
            params_fault(mn, fname, ps@.take(i as int)) is None,
        decreases ps.len() - i,
    {
        let ghost pre = ps@.take(i as int + 1);
        assert(pre.drop_last() =~= ps@.take(i as int));
        assert(pre.last() == ps@[i as int]);
        let p = &ps[i];
        let checked = validate_param(p);
        let seen = param_name_seen(ps, i);
        assert(seen == exists|j: int| 0 <= j < pre.len() - 1 && #[trigger] pre[j].name@
            == pre.last().name@) by {
            if seen {
                let j = choose|j: int| 0 <= j < i && #[trigger] ps@[j].name@ == ps@[i as int].name@;
                assert(pre[j] == ps@[j]);
            }
            if exists|j: int| 0 <= j < pre.len() - 1 && #[trigger] pre[j].name@ == pre.last().name@ {
                let j = choose|j: int| 0 <= j < pre.len() - 1 && #[trigger] pre[j].name@
                    == pre.last().name@;
                assert(pre[j] == ps@[j]);
            }
        }
        match checked {
            Err(e) => {
                proof {
                    lemma_params_fault_prefix(mn, fname, ps@, i as int + 1);
                }
                return Err(e);
            },
            Ok(()) => {},
        }
        if seen {
            proof {
                lemma_params_fault_prefix(mn, fname, ps@, i as int + 1);
            }
            return Err(
                ValidationError::DuplicateParamName {
                    module: module.name.clone(),
                    function: f.name.clone(),
                    param: p.name.clone(),
                },
            );
        }
        i = i + 1;
    }
    assert(ps@.take(ps.len() as int) =~= ps@);
    Ok(())
}

fn validate_error_domain(module: &Module, errors: &ErrorDomain) -> (r: Result<(), ValidationError>)
    ensures
        reports(r, domain_fault(module.name@, module.functions@, *errors)),
{
    if is_blank_text(errors.name.as_str()) {
        return Err(ValidationError::ErrorDomainMissingName(module.name.clone()));
    }
    let fs = module.functions.as_slice();
    if function_name_seen(fs, &errors.name, fs.len()) {
        return Err(
            ValidationError::NameCollisionWithErrorDomain {
                module: module.name.clone(),
                name: errors.name.clone(),
            },
        );
    }
    let cs = errors.codes.as_slice();
    let ghost mn = module.name@;
    let mut i: usize = 0;
    while i < cs.len()
        invariant
            cs@ == errors.codes@,
            i <= cs.len(),
            mn == module.name@,
            domain_fault(mn, module.functions@, *errors) == codes_fault(mn, cs@),
            codes_fault(mn, cs@.take(i as int)) is None,
        decreases cs.len() - i,
    {
        let ghost pre = cs@.take(i as int + 1);
        assert(pre.drop_last() =~= cs@.take(i as int));
        assert(pre.last() == cs@[i as int]);
        let c = &cs[i];
        if c.code == 0 {
            proof {
                lemma_codes_fault_prefix(mn, cs@, i as int + 1);
            }
            return Err(ValidationError::InvalidErrorCode { module: module.name.clone(), name: c.name.clone() });
        }
        let name_seen = code_name_seen(cs, i);
        assert(name_seen == exists|j: int| 0 <= j < pre.len() - 1 && #[trigger] pre[j].name@
            == pre.last().name@) by {
            if name_seen {
                let j = choose|j: int| 0 <= j < i && #[trigger] cs@[j].name@ == cs@[i as int].name@;
                assert(pre[j] == cs@[j]);
            }
            if exists|j: int| 0 <= j < pre.len() - 1 && #[trigger] pre[j].name@ == pre.last().name@ {
                let j = choose|j: int| 0 <= j < pre.len() - 1 && #[trigger] pre[j].name@
                    == pre.last().name@;
                assert(pre[j] == cs@[j]);
            }
        }
        if name_seen {
            proof {
                lemma_codes_fault_prefix(mn, cs@, i as int + 1);
            }
            return Err(ValidationError::DuplicateErrorName { module: module.name.clone(), name: c.name.clone() });
        }
        let number_seen = code_number_seen(cs, i);
        assert(number_seen == exists|j: int| 0 <= j < pre.len() - 1 && #[trigger] pre[j].code
            == pre.last().code) by {
            if number_seen {
                let j = choose|j: int| 0 <= j < i && #[trigger] cs@[j].code == cs@[i as int].code;
                assert(pre[j] == cs@[j]);
            }
            if exists|j: int| 0 <= j < pre.len() - 1 && #[trigger] pre[j].code == pre.last().code {
                let j = choose|j: int| 0 <= j < pre.len() - 1 && #[trigger] pre[j].code
                    == pre.last().code;
                assert(pre[j] == cs@[j]);
            }
        }
        if number_seen {
            proof {
                lemma_codes_fault_prefix(mn, cs@, i as int + 1);
            }
            return Err(ValidationError::DuplicateErrorCode { module: module.name.clone(), code: c.code });
        }
        i = i + 1;
    }
    assert(cs@.take(cs.len() as int) =~= cs@);
    Ok(())
}

fn validate_module(module: &Module) -> (r: Result<(), ValidationError>)
    ensures
        reports(r, module_fault(*module)),
{
    if is_blank_text(module.name.as_str()) {
        return Err(ValidationError::NoModuleName);
    }
    if is_reserved_word(module.name.as_str()) {
        proof {
            reveal_strlit("reserved word");
        }
        return Err(ValidationError::InvalidModuleName(module.name.clone(), "reserved word"));
    }
    let fs = module.functions.as_slice();
    let ghost mn = module.name@;
    let mut i: usize = 0;
    while i < fs.len()
        invariant
            fs@ == module.functions@,
            i <= fs.len(),
            mn == module.name@,
            !is_blank(mn),
            !is_reserved(mn),
            functions_fault(mn, fs@.take(i as int)) is None,
        decreases fs.len() - i,
    {
        let ghost pre = fs@.take(i as int + 1);
        assert(pre.drop_last() =~= fs@.take(i as int));
        assert(pre.last() == fs@[i as int]);
        let f = &fs[i];
        let seen = function_name_seen(fs, &f.name, i);
        assert(seen == exists|j: int| 0 <= j < pre.len() - 1 && #[trigger] pre[j].name@
            == pre.last().name@) by {
            if seen {
                let j = choose|j: int| 0 <= j < i && #[trigger] fs@[j].name@ == fs@[i as int].name@;
                assert(pre[j] == fs@[j]);
            }
            if exists|j: int| 0 <= j < pre.len() - 1 && #[trigger] pre[j].name@ == pre.last().name@ {
                let j = choose|j: int| 0 <= j < pre.len() - 1 && #[trigger] pre[j].name@
                    == pre.last().name@;
                assert(pre[j] == fs@[j]);
            }
        }
        if seen {
            proof {
                lemma_functions_fault_prefix(mn, fs@, i as int + 1);
            }
            return Err(
                ValidationError::DuplicateFunctionName {
                    module: module.name.clone(),
                    function: f.name.clone(),
                },
            );
        }
        let checked = validate_function(module, f);
        match checked {
            Err(e) => {
                proof {
                    lemma_functions_fault_prefix(mn, fs@, i as int + 1);
                }
                return Err(e);
            },
            Ok(()) => {},
        }
        i = i + 1;
    }
    assert(fs@.take(fs.len() as int) =~= fs@);
    match &module.errors {
        Some(errors) => validate_error_domain(module, errors),
        None => Ok(()),
    }
}

/// Checks the invariants of an api and reports the first violation, in
/// the order modules, functions, parameters, error domain.
pub fn validate_api(api: &Api) -> (r: Result<(), ValidationError>)
    ensures
        reports(r, api_fault(*api)),
{
    let ms = api.modules.as_slice();
    let mut i: usize = 0;
    while i < ms.len()
        invariant
            ms@ == api.modules@,
            i <= ms.len(),
            modules_fault(ms@.take(i as int)) is None,
        decreases ms.len() - i,
    {
        let ghost pre = ms@.take(i as int + 1);
        assert(pre.drop_last() =~= ms@.take(i as int));
        assert(pre.last() == ms@[i as int]);
        let m = &ms[i];
        let seen = module_name_seen(ms, i);
        assert(seen == exists|j: int| 0 <= j < pre.len() - 1 && #[trigger] pre[j].name@
            == pre.last().name@) by {
            if seen {
                let j = choose|j: int| 0 <= j < i && #[trigger] ms@[j].name@ == ms@[i as int].name@;
                assert(pre[j] == ms@[j]);
            }
            if exists|j: int| 0 <= j < pre.len() - 1 && #[trigger] pre[j].name@ == pre.last().name@ {
                let j = choose|j: int| 0 <= j < pre.len() - 1 && #[trigger] pre[j].name@
                    == pre.last().name@;
                assert(pre[j] == ms@[j]);
            }
        }
        if seen {
            proof {
                lemma_modules_fault_prefix(ms@, i as int + 1);
            }
            return Err(ValidationError::DuplicateModuleName(m.name.clone()));
        }
        let checked = validate_module(m);
        match checked {
            Err(e) => {
                proof {
                    lemma_modules_fault_prefix(ms@, i as int + 1);
                }
                return Err(e);
            },
            Ok(()) => {},
        }
        i = i + 1;
    }
    assert(ms@.take(ms.len() as int) =~= ms@);
    Ok(())
}

/// The parameters of a function: no reserved name, no name twice.
pub open spec fn params_well_formed(ps: Seq<Param>) -> bool {
    &&& forall|i: int| 0 <= i < ps.len() ==> !is_reserved(#[trigger] ps[i].name@)
    &&& forall|i: int, j: int|
        0 <= i < j < ps.len() ==> #[trigger] ps[i].name@ != #[trigger] ps[j].name@
}

/// A function: a name that is not reserved, not `async`, well-formed parameters.
pub open spec fn function_well_formed(f: Function) -> bool {
    !is_reserved(f.name@) && !f.is_async && params_well_formed(f.params@)
}

/// The functions of a module: each well formed, no name twice.
pub open spec fn functions_well_formed(fs: Seq<Function>) -> bool {
    &&& forall|i: int| 0 <= i < fs.len() ==> function_well_formed(#[trigger] fs[i])
    &&& forall|i: int, j: int|
        0 <= i < j < fs.len() ==> #[trigger] fs[i].name@ != #[trigger] fs[j].name@
}

/// Error codes: each non-zero, no name twice, no number twice.
pub open spec fn codes_well_formed(cs: Seq<ErrorCode>) -> bool {
    &&& forall|i: int| 0 <= i < cs.len() ==> (#[trigger] cs[i]).code != 0
    &&& forall|i: int, j: int|
        0 <= i < j < cs.len() ==> #[trigger] cs[i].name@ != #[trigger] cs[j].name@
    &&& forall|i: int, j: int| 0 <= i < j < cs.len() ==> #[trigger] cs[i].code != #[trigger] cs[j].code
}

/// An error domain of a module with functions `fs`: a name that is not
/// blank and no function's, well-formed codes.
pub open spec fn domain_well_formed(fs: Seq<Function>, d: ErrorDomain) -> bool {
    &&& !is_blank(d.name@)
    &&& forall|i: int| 0 <= i < fs.len() ==> #[trigger] fs[i].name@ != d.name@
    &&& codes_well_formed(d.codes@)
}

/// A module: a name that is neither blank nor reserved, well-formed
/// functions and error domain.
pub open spec fn module_well_formed(m: Module) -> bool {
    &&& !is_blank(m.name@)
    &&& !is_reserved(m.name@)
    &&& functions_well_formed(m.functions@)
    &&& match m.errors {
        Some(d) => domain_well_formed(m.functions@, d),
        None => true,
    }
}

/// Every invariant of an api: each module well formed, no module name twice.
pub open spec fn api_well_formed(api: Api) -> bool {
    &&& forall|i: int| 0 <= i < api.modules@.len() ==> module_well_formed(#[trigger] api.modules@[i])
    &&& forall|i: int, j: int|
        0 <= i < j < api.modules@.len() ==> #[trigger] api.modules@[i].name@
            != #[trigger] api.modules@[j].name@
}

proof fn lemma_params_fault_none(module: Seq<char>, function: Seq<char>, ps: Seq<Param>)
    ensures
        params_fault(module, function, ps) is None <==> params_well_formed(ps),
    decreases ps.len(),
{
    if ps.len() > 0 {
        let pre = ps.drop_last();
        lemma_params_fault_none(module, function, pre);
        assert(forall|i: int| 0 <= i < pre.len() ==> pre[i] == ps[i]);
        if params_well_formed(ps) {
            assert(params_well_formed(pre));
            assert(!exists|j: int| 0 <= j < ps.len() - 1 && #[trigger] ps[j].name@ == ps.last().name@);
        }
        if params_fault(module, function, ps) is None {
            assert forall|i: int, j: int|
                0 <= i < j < ps.len() implies #[trigger] ps[i].name@ != #[trigger] ps[j].name@ by {
                if j == ps.len() - 1 {
                    if ps[i].name@ == ps[j].name@ {
                        assert(ps[i].name@ == ps.last().name@);
                    }
                } else {
                    assert(pre[i] == ps[i] && pre[j] == ps[j]);
                }
            }
            assert forall|i: int| 0 <= i < ps.len() implies !is_reserved(#[trigger] ps[i].name@) by {
                if i < ps.len() - 1 {
                    assert(pre[i] == ps[i]);
                }
            }
        }
    }
}

proof fn lemma_functions_fault_none(module: Seq<char>, fs: Seq<Function>)
    ensures
        functions_fault(module, fs) is None <==> functions_well_formed(fs),
    decreases fs.len(),
{
    if fs.len() > 0 {
        let pre = fs.drop_last();
        lemma_functions_fault_none(module, pre);
        lemma_params_fault_none(module, fs.last().name@, fs.last().params@);
        assert(forall|i: int| 0 <= i < pre.len() ==> pre[i] == fs[i]);
        if functions_well_formed(fs) {
            assert(functions_well_formed(pre));
            assert(function_well_formed(fs[fs.len() - 1]));
            assert(!exists|j: int| 0 <= j < fs.len() - 1 && #[trigger] fs[j].name@ == fs.last().name@);
        }
        if functions_fault(module, fs) is None {
            assert forall|i: int, j: int|
                0 <= i < j < fs.len() implies #[trigger] fs[i].name@ != #[trigger] fs[j].name@ by {
                if j == fs.len() - 1 {
                    if fs[i].name@ == fs[j].name@ {
                        assert(fs[i].name@ == fs.last().name@);
                    }
                } else {
                    assert(pre[i] == fs[i] && pre[j] == fs[j]);
                }
            }
            assert forall|i: int| 0 <= i < fs.len() implies function_well_formed(#[trigger] fs[i]) by {
                if i < fs.len() - 1 {
                    assert(pre[i] == fs[i]);
                }
            }
        }
    }
}

proof fn lemma_codes_fault_none(module: Seq<char>, cs: Seq<ErrorCode>)
    ensures
        codes_fault(module, cs) is None <==> codes_well_formed(cs),
    decreases cs.len(),
{
    if cs.len() > 0 {
        let pre = cs.drop_last();
        lemma_codes_fault_none(module, pre);
        assert(forall|i: int| 0 <= i < pre.len() ==> pre[i] == cs[i]);
        if codes_well_formed(cs) {
            assert(codes_well_formed(pre));
            assert(cs[cs.len() - 1].code != 0);
            assert(!exists|j: int| 0 <= j < cs.len() - 1 && #[trigger] cs[j].name@ == cs.last().name@);
            assert(!exists|j: int| 0 <= j < cs.len() - 1 && #[trigger] cs[j].code == cs.last().code);
        }
        if codes_fault(module, cs) is None {
            assert forall|i: int, j: int|
                0 <= i < j < cs.len() implies #[trigger] cs[i].name@ != #[trigger] cs[j].name@ by {
                if j == cs.len() - 1 {
                    if cs[i].name@ == cs[j].name@ {
                        assert(cs[i].name@ == cs.last().name@);
                    }
                } else {
                    assert(pre[i] == cs[i] && pre[j] == cs[j]);
                }
            }
            assert forall|i: int, j: int|
                0 <= i < j < cs.len() implies #[trigger] cs[i].code != #[trigger] cs[j].code by {
                if j == cs.len() - 1 {
                    if cs[i].code == cs[j].code {
                        assert(cs[i].code == cs.last().code);
                    }
                } else {
                    assert(pre[i] == cs[i] && pre[j] == cs[j]);
                }
            }
            assert forall|i: int| 0 <= i < cs.len() implies (#[trigger] cs[i]).code != 0 by {
                if i < cs.len() - 1 {
                    assert(pre[i] == cs[i]);
                }
            }
        }
    }
}

proof fn lemma_module_fault_none(m: Module)
    ensures
        module_fault(m) is None <==> module_well_formed(m),
{
    lemma_functions_fault_none(m.name@, m.functions@);
    match m.errors {
        Some(d) => {
            lemma_codes_fault_none(m.name@, d.codes@);
        },
        None => {},
    }
}

proof fn lemma_modules_fault_none(ms: Seq<Module>)
    ensures
        modules_fault(ms) is None <==> (forall|i: int| 0 <= i < ms.len() ==> module_well_formed(
            #[trigger] ms[i],
        )) && (forall|i: int, j: int|
            0 <= i < j < ms.len() ==> #[trigger] ms[i].name@ != #[trigger] ms[j].name@),
    decreases ms.len(),
{
    if ms.len() > 0 {
        let pre = ms.drop_last();
        lemma_modules_fault_none(pre);
        lemma_module_fault_none(ms.last());
        assert(forall|i: int| 0 <= i < pre.len() ==> pre[i] == ms[i]);
        if (forall|i: int| 0 <= i < ms.len() ==> module_well_formed(#[trigger] ms[i])) && (forall|
            i: int,
            j: int,
        | 0 <= i < j < ms.len() ==> #[trigger] ms[i].name@ != #[trigger] ms[j].name@) {
            assert(module_well_formed(ms[ms.len() - 1]));
            assert(!exists|j: int| 0 <= j < ms.len() - 1 && #[trigger] ms[j].name@ == ms.last().name@);
        }
        if modules_fault(ms) is None {
            assert forall|i: int, j: int|
                0 <= i < j < ms.len() implies #[trigger] ms[i].name@ != #[trigger] ms[j].name@ by {
                if j == ms.len() - 1 {
                    if ms[i].name@ == ms[j].name@ {
                        assert(ms[i].name@ == ms.last().name@);
                    }
                } else {
                    assert(pre[i] == ms[i] && pre[j] == ms[j]);
                }
            }
            assert forall|i: int| 0 <= i < ms.len() implies module_well_formed(#[trigger] ms[i]) by {
                if i < ms.len() - 1 {
                    assert(pre[i] == ms[i]);
                }
            }
        }
    }
}

/// Validation is total: it finds no fault exactly when the api satisfies
/// every invariant, so `validate_api` succeeds on every well-formed api and
/// reports an error on every other.
pub proof fn lemma_validation_total(api: Api)
    ensures
        api_fault(api) is None <==> api_well_formed(api),
{
    lemma_modules_fault_none(api.modules@);
}

} // verus!
