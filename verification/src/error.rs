//! The error classifier: wraps a key whose `error/*` metadata the database
//! machinery filled in on failure, and derives typed predicates from the
//! hierarchical code string held under `error/number`.
//!
//! The taxonomy is a closed prefix hierarchy. Each predicate tests whether
//! the code starts with one fixed prefix, so prefixes that nest make several
//! predicates true of one error at once; callers query at whatever
//! granularity they need. An absent metadata field reads as the empty
//! string and never as a failure.

use vstd::prelude::*;

use crate::key::{meta_lookup, StringKey, StringKeyView};

verus! {

/// The value of the metadata entry named `name`, or the empty string if the
/// key carries no such entry.
pub open spec fn meta_or_empty(k: StringKeyView, name: Seq<char>) -> Seq<char> {
    match meta_lookup(k.meta, name) {
        Some(v) => v,
        None => Seq::<char>::empty(),
    }
}

/// The error code string of a key: its `error/number` metadata.
pub open spec fn error_number(k: StringKeyView) -> Seq<char> {
    meta_or_empty(k, "error/number"@)
}

/// The `error/reason` metadata of a key.
pub open spec fn error_reason(k: StringKeyView) -> Seq<char> {
    meta_or_empty(k, "error/reason"@)
}

/// The `error/module` metadata of a key.
pub open spec fn error_module(k: StringKeyView) -> Seq<char> {
    meta_or_empty(k, "error/module"@)
}

/// The `error/description` metadata of a key.
pub open spec fn error_description(k: StringKeyView) -> Seq<char> {
    meta_or_empty(k, "error/description"@)
}

/// The `error/file` metadata of a key.
pub open spec fn error_file(k: StringKeyView) -> Seq<char> {
    meta_or_empty(k, "error/file"@)
}

/// The `error/line` metadata of a key.
pub open spec fn error_line(k: StringKeyView) -> Seq<char> {
    meta_or_empty(k, "error/line"@)
}

/// Whether a key's error code starts with the given prefix. Every
/// classification predicate is exactly this test against one fixed prefix.
pub open spec fn classifies(k: StringKeyView, prefix: Seq<char>) -> bool {
    prefix.is_prefix_of(error_number(k))
}

/// The fixed template of the rendered message: module, code, description
/// and reason interpolated in that order. It renders whatever the fields
/// hold, the empty string included.
pub open spec fn error_message(k: StringKeyView) -> Seq<char> {
    "Sorry, module "@ + error_module(k) + " issued error "@ + error_number(k) + ":\n"@
        + error_description(k) + ": "@ + error_reason(k)
}

/// Whether `s` starts with `prefix`, character by character.
fn str_starts_with(s: &str, prefix: &str) -> (r: bool)
    ensures
        r == prefix@.is_prefix_of(s@),
{
    let n = prefix.unicode_len();
    if n > s.unicode_len() {
        return false;
    }
    let mut i: usize = 0;
    while i < n
        invariant
            n == prefix@.len(),
            n <= s@.len(),
            i <= n,
            forall|j: int| 0 <= j < i ==> s@[j] == prefix@[j],
        decreases n - i,
    {
        if s.get_char(i) != prefix.get_char(i) {
            proof {
                assert(!prefix@.is_prefix_of(s@)) by {
                    if prefix@.is_prefix_of(s@) {
                        assert(prefix@[i as int] == s@.subrange(0, prefix@.len() as int)[i as int]);
                    }
                }
            }
            return false;
        }
        i = i + 1;
    }
    proof {
        assert(prefix@ =~= s@.subrange(0, prefix@.len() as int));
    }
    true
}

/// Wraps a key that carries `error/*` metadata, set by the database
/// machinery when a session operation failed. Pass only a duplicate of the
/// hint key, so that the classifier is decoupled from the hint key's later
/// changes.
pub struct KDBError {
    error_key: StringKey,
}

impl View for KDBError {
    type V = StringKeyView;

    closed spec fn view(&self) -> StringKeyView {
        self.error_key@
    }
}

impl KDBError {
    /// Wraps the given key. Nothing is validated here: a key with no
    /// `error/*` metadata classifies as nothing and reads as all-empty.
    pub fn new(error_key: StringKey) -> (r: KDBError)
        ensures
            r@ == error_key@,
    {
        KDBError { error_key }
    }

    fn is_error(&self, error_str: &str) -> (r: bool)
        ensures
            r == classifies(self@, error_str@),
    {
        let number = self.number();
        str_starts_with(number.as_str(), error_str)
    }

    /// Whether the error is of the unrecoverable category (code prefix
    /// `C01`), the superset of the resource, installation and logical
    /// classes.
    pub fn is_permanent(&self) -> (r: bool)
        ensures
            r == classifies(self@, "C01"@),
    {
        self.is_error("C01")
    }

    /// Whether a resource could not be acquired (code prefix `C011`).
    pub fn is_resource(&self) -> (r: bool)
        ensures
            r == classifies(self@, "C011"@),
    {
        self.is_error("C011")
    }

    /// Whether memory was exhausted (code prefix `C01110`).
    pub fn is_out_of_memory(&self) -> (r: bool)
        ensures
            r == classifies(self@, "C01110"@),
    {
        self.is_error("C01110")
    }

    /// Whether the installation is missing or misconfigured (code prefix
    /// `C012`).
    pub fn is_installation(&self) -> (r: bool)
        ensures
            r == classifies(self@, "C012"@),
    {
        self.is_error("C012")
    }

    /// Whether an internal logic fault occurred (code prefix `C013`), the
    /// superset of the internal, interface and plugin-misbehavior classes.
    pub fn is_logical(&self) -> (r: bool)
        ensures
            r == classifies(self@, "C013"@),
    {
        self.is_error("C013")
    }

    /// Whether an internal invariant was violated (code prefix `C01310`).
    pub fn is_internal(&self) -> (r: bool)
        ensures
            r == classifies(self@, "C01310"@),
    {
        self.is_error("C01310")
    }

    /// Whether the caller misused the interface (code prefix `C01320`).
    pub fn is_interface(&self) -> (r: bool)
        ensures
            r == classifies(self@, "C01320"@),
    {
        self.is_error("C01320")
    }

    /// Whether a backend plugin violated its contract (code prefix
    /// `C01330`).
    pub fn is_plugin_misbehavior(&self) -> (r: bool)
        ensures
            r == classifies(self@, "C01330"@),
    {
        self.is_error("C01330")
    }

    /// Whether a concurrent or conflicting modification was detected (code
    /// prefix `C02`).
    pub fn is_conflicting_state(&self) -> (r: bool)
        ensures
            r == classifies(self@, "C02"@),
    {
        self.is_error("C02")
    }

    /// Whether a value failed validation (code prefix `C03`), the superset
    /// of the syntactic and semantic classes.
    pub fn is_validation(&self) -> (r: bool)
        ensures
            r == classifies(self@, "C03"@),
    {
        self.is_error("C03")
    }

    /// Whether validation failed on syntax (code prefix `C03100`).
    pub fn is_syntactic(&self) -> (r: bool)
        ensures
            r == classifies(self@, "C03100"@),
    {
        self.is_error("C03100")
    }

    /// Whether validation failed on semantics (code prefix `C03200`).
    pub fn is_semantic(&self) -> (r: bool)
        ensures
            r == classifies(self@, "C03200"@),
    {
        self.is_error("C03200")
    }

    /// The error number, or an empty string if unavailable.
    pub fn number(&self) -> (r: String)
        ensures
            r@ == error_number(self@),
    {
        self.error_key_or_empty_string("error/number")
    }

    /// The error reason, or an empty string if unavailable.
    pub fn reason(&self) -> (r: String)
        ensures
            r@ == error_reason(self@),
    {
        self.error_key_or_empty_string("error/reason")
    }

    /// The module where the error occurred, or an empty string if
    /// unavailable.
    pub fn module(&self) -> (r: String)
        ensures
            r@ == error_module(self@),
    {
        self.error_key_or_empty_string("error/module")
    }

    /// A description of the error, or an empty string if unavailable.
    pub fn description(&self) -> (r: String)
        ensures
            r@ == error_description(self@),
    {
        self.error_key_or_empty_string("error/description")
    }

    /// The source file the error information comes from, or an empty string
    /// if unavailable.
    pub fn file(&self) -> (r: String)
        ensures
            r@ == error_file(self@),
    {
        self.error_key_or_empty_string("error/file")
    }

    /// The exact line of that source file, or an empty string if
    /// unavailable.
    pub fn line(&self) -> (r: String)
        ensures
            r@ == error_line(self@),
    {
        self.error_key_or_empty_string("error/line")
    }

    fn error_key_or_empty_string(&self, error_key: &str) -> (r: String)
        ensures
            r@ == meta_or_empty(self@, error_key@),
    {
        match self.error_key.meta(error_key) {
            Some(meta) => meta,
            None => String::new(),
        }
    }

    /// Renders the fixed-template message. Empty fields render as empty:
    /// the template itself always comes out whole.
    pub fn to_error_message(&self) -> (r: String)
        ensures
            r@ == error_message(self@),
    {
        let mut message = String::from_str("Sorry, module ");
        message.append(self.module().as_str());
        message.append(" issued error ");
        message.append(self.number().as_str());
        message.append(":\n");
        message.append(self.description().as_str());
        message.append(": ");
        message.append(self.reason().as_str());
        message
    }
}

proof fn lemma_prefix_transitive(s: Seq<char>, p: Seq<char>, q: Seq<char>)
    requires
        q.is_prefix_of(p),
        p.is_prefix_of(s),
    ensures
        q.is_prefix_of(s),
{
    assert(q =~= s.subrange(0, q.len() as int)) by {
        assert forall|i: int| 0 <= i < q.len() implies q[i] == s.subrange(0, q.len() as int)[i] by {
            assert(q[i] == p.subrange(0, q.len() as int)[i]);
            assert(p[i] == s.subrange(0, p.len() as int)[i]);
        }
    }
}

/// Law: the taxonomy is a strict prefix hierarchy, so classifications nest.
/// For any key, an out-of-memory error is also a resource error and a
/// permanent one; internal, interface and plugin-misbehavior errors are also
/// logical and permanent; installation errors are permanent; syntactic and
/// semantic validation errors are also validation errors.
pub proof fn lemma_classification_nests(k: StringKeyView)
    ensures
        classifies(k, "C01110"@) ==> classifies(k, "C011"@),
        classifies(k, "C011"@) ==> classifies(k, "C01"@),
        classifies(k, "C012"@) ==> classifies(k, "C01"@),
        classifies(k, "C01310"@) ==> classifies(k, "C013"@),
        classifies(k, "C01320"@) ==> classifies(k, "C013"@),
        classifies(k, "C01330"@) ==> classifies(k, "C013"@),
        classifies(k, "C013"@) ==> classifies(k, "C01"@),
        classifies(k, "C03100"@) ==> classifies(k, "C03"@),
        classifies(k, "C03200"@) ==> classifies(k, "C03"@),
{
    reveal_strlit("C01");
    reveal_strlit("C011");
    reveal_strlit("C01110");
    reveal_strlit("C012");
    reveal_strlit("C013");
    reveal_strlit("C01310");
    reveal_strlit("C01320");
    reveal_strlit("C01330");
    reveal_strlit("C03");
    reveal_strlit("C03100");
    reveal_strlit("C03200");
    let n = error_number(k);
    assert("C011"@.is_prefix_of("C01110"@)) by {
        assert("C011"@ =~= "C01110"@.subrange(0, 4));
    }
    assert("C01"@.is_prefix_of("C011"@)) by {
        assert("C01"@ =~= "C011"@.subrange(0, 3));
    }
    assert("C01"@.is_prefix_of("C012"@)) by {
        assert("C01"@ =~= "C012"@.subrange(0, 3));
    }
    assert("C013"@.is_prefix_of("C01310"@)) by {
        assert("C013"@ =~= "C01310"@.subrange(0, 4));
    }
    assert("C013"@.is_prefix_of("C01320"@)) by {
        assert("C013"@ =~= "C01320"@.subrange(0, 4));
    }
    assert("C013"@.is_prefix_of("C01330"@)) by {
        assert("C013"@ =~= "C01330"@.subrange(0, 4));
    }
    assert("C01"@.is_prefix_of("C013"@)) by {
        assert("C01"@ =~= "C013"@.subrange(0, 3));
    }
    assert("C03"@.is_prefix_of("C03100"@)) by {
        assert("C03"@ =~= "C03100"@.subrange(0, 3));
    }
    assert("C03"@.is_prefix_of("C03200"@)) by {
        assert("C03"@ =~= "C03200"@.subrange(0, 3));
    }
    if classifies(k, "C01110"@) {
        lemma_prefix_transitive(n, "C01110"@, "C011"@);
    }
    if classifies(k, "C011"@) {
        lemma_prefix_transitive(n, "C011"@, "C01"@);
    }
    if classifies(k, "C012"@) {
        lemma_prefix_transitive(n, "C012"@, "C01"@);
    }
    if classifies(k, "C01310"@) {
        lemma_prefix_transitive(n, "C01310"@, "C013"@);
    }
    if classifies(k, "C01320"@) {
        lemma_prefix_transitive(n, "C01320"@, "C013"@);
    }
    if classifies(k, "C01330"@) {
        lemma_prefix_transitive(n, "C01330"@, "C013"@);
    }
    if classifies(k, "C013"@) {
        lemma_prefix_transitive(n, "C013"@, "C01"@);
    }
    if classifies(k, "C03100"@) {
        lemma_prefix_transitive(n, "C03100"@, "C03"@);
    }
    if classifies(k, "C03200"@) {
        lemma_prefix_transitive(n, "C03200"@, "C03"@);
    }
}

/// Law: a key with no metadata at all classifies as nothing. Every field
/// reads as the empty string and every classification predicate is false.
pub proof fn lemma_no_metadata(k: StringKeyView)
    requires
        k.meta.len() == 0,
    ensures
        error_number(k) == Seq::<char>::empty(),
        error_reason(k) == Seq::<char>::empty(),
        error_module(k) == Seq::<char>::empty(),
        error_description(k) == Seq::<char>::empty(),
        error_file(k) == Seq::<char>::empty(),
        error_line(k) == Seq::<char>::empty(),
        !classifies(k, "C01"@),
        !classifies(k, "C011"@),
        !classifies(k, "C01110"@),
        !classifies(k, "C012"@),
        !classifies(k, "C013"@),
        !classifies(k, "C01310"@),
        !classifies(k, "C01320"@),
        !classifies(k, "C01330"@),
        !classifies(k, "C02"@),
        !classifies(k, "C03"@),
        !classifies(k, "C03100"@),
        !classifies(k, "C03200"@),
{
    reveal_strlit("C01");
    reveal_strlit("C011");
    reveal_strlit("C01110");
    reveal_strlit("C012");
    reveal_strlit("C013");
    reveal_strlit("C01310");
    reveal_strlit("C01320");
    reveal_strlit("C01330");
    reveal_strlit("C02");
    reveal_strlit("C03");
    reveal_strlit("C03100");
    reveal_strlit("C03200");
}

} // verus!
