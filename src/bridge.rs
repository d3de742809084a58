//! The call bridge to the managed runtime: method descriptors, argument
//! checks, scope-bounded references, and the typed errors that stand for
//! whatever the managed side raised.

use vstd::prelude::*;
use vstd::string::StringSliceAdditionalSpecFns;

verus! {

/// Why a bridge call failed; always returned, never unwound.
#[derive(Debug, Clone)]
pub enum BridgeError {
    /// The runtime's own call interface reported a failure.
    JniError(String),
    /// A value could not be converted across the boundary.
    ConversionError(String),
    /// The descriptor is malformed or the arguments do not fit it.
    SignatureMismatch,
    /// The managed side raised an exception; it is described here.
    PendingRuntimeException(String),
    /// A scope-bounded reference was used outside its scope.
    ReferenceExpired,
    /// A native panic during marshaling, caught at the boundary.
    Internal(String),
}

/// A parameter or result type of a method descriptor.
#[derive(PartialEq, Eq, Structural, Clone, Copy, Debug)]
pub enum JavaType {
    Boolean,
    Byte,
    Char,
    Short,
    Int,
    Long,
    Float,
    Double,
    Object,
    Array,
}

/// A handle of a managed object reference, as the bridge hands it out.
#[derive(PartialEq, Eq, Structural, Clone, Copy, Debug)]
pub struct ObjectRef {
    pub id: u64,
}

/// A value crossing the boundary. Floating-point values travel as their
/// IEEE 754 bit patterns.
#[derive(Debug, Clone)]
pub enum BridgeValue {
    Void,
    Bool(bool),
    Byte(i8),
    Char(u16),
    Short(i16),
    Int(i32),
    Long(i64),
    FloatBits(u32),
    DoubleBits(u64),
    Str(String),
    Object(ObjectRef),
    Null,
}

/// A parsed descriptor: parameter types and the result type (`None` for void).
pub struct MethodSignature {
    pub params: Vec<JavaType>,
    pub ret: Option<JavaType>,
}

/// The primitive type that descriptor letter `c` names.
pub open spec fn primitive_of(c: u8) -> Option<JavaType> {
    if c == 90 { Some(JavaType::Boolean) }       // Z
    else if c == 66 { Some(JavaType::Byte) }     // B
    else if c == 67 { Some(JavaType::Char) }     // C
    else if c == 83 { Some(JavaType::Short) }    // S
    else if c == 73 { Some(JavaType::Int) }      // I
    else if c == 74 { Some(JavaType::Long) }     // J
    else if c == 70 { Some(JavaType::Float) }    // F
    else if c == 68 { Some(JavaType::Double) }   // D
    else { None }
}

/// Position of the first `;` at or after `i`.
pub open spec fn semicolon_from(s: Seq<u8>, i: int) -> Option<int>
    decreases s.len() - i,
{
    if i < 0 || i >= s.len() {
        None
    } else if s[i] == 59 {
        Some(i)
    } else {
        semicolon_from(s, i + 1)
    }
}

/// One field type at `i`: a primitive letter, `L<class>;` with a non-empty
/// class name, or `[` followed by a field type. Yields the type and the
/// position after it.
pub open spec fn parse_field(s: Seq<u8>, i: int) -> Option<(JavaType, int)>
    decreases s.len() - i,
{
    if i < 0 || i >= s.len() {
        None
    } else if primitive_of(s[i]) is Some {
        Some((primitive_of(s[i])->0, i + 1))
    } else if s[i] == 76 {
        match semicolon_from(s, i + 1) {
            Some(j) => if j > i + 1 { Some((JavaType::Object, j + 1)) } else { None },
            None => None,
        }
    } else if s[i] == 91 {
        match parse_field(s, i + 1) {
            Some((_, j)) => Some((JavaType::Array, j)),
            None => None,
        }
    } else {
        None
    }
}

/// The parameter list from `i` up to and including its `)`.
pub open spec fn parse_params(s: Seq<u8>, i: int) -> Option<(Seq<JavaType>, int)>
    decreases s.len() - i,
{
    if i < 0 || i >= s.len() {
        None
    } else if s[i] == 41 {
        Some((Seq::empty(), i + 1))
    } else {
        match parse_field(s, i) {
            Some((t, j)) => if i < j && j <= s.len() {
                match parse_params(s, j) {
                    Some((ts, k)) => Some((seq![t] + ts, k)),
                    None => None,
                }
            } else {
                None
            },
            None => None,
        }
    }
}

/// A whole descriptor `(<params>)<result>`, where the result is `V` or a
/// field type, with nothing after it.
pub open spec fn parse_descriptor(s: Seq<u8>) -> Option<(Seq<JavaType>, Option<JavaType>)> {
    if s.len() == 0 || s[0] != 40 {
        None
    } else {
        match parse_params(s, 1) {
            Some((ps, i)) => if i < s.len() && s[i] == 86 && i + 1 == s.len() {
                Some((ps, None))
            } else {
                match parse_field(s, i) {
                    Some((t, j)) => if j == s.len() { Some((ps, Some(t))) } else { None },
                    None => None,
                }
            },
            None => None,
        }
    }
}

fn primitive_letter(c: u8) -> (r: Option<JavaType>)
    ensures
        r == primitive_of(c),
{
    if c == 90 { Some(JavaType::Boolean) }
    else if c == 66 { Some(JavaType::Byte) }
    else if c == 67 { Some(JavaType::Char) }
    else if c == 83 { Some(JavaType::Short) }
    else if c == 73 { Some(JavaType::Int) }
    else if c == 74 { Some(JavaType::Long) }
    else if c == 70 { Some(JavaType::Float) }
    else if c == 68 { Some(JavaType::Double) }
    else { None }
}

fn find_semicolon(s: &[u8], i: usize) -> (r: Option<usize>)
    ensures
        match r {
            Some(j) => semicolon_from(s@, i as int) == Some(j as int),
            None => semicolon_from(s@, i as int) is None,
        },
    decreases s@.len() - i,
{
    if i >= s.len() {
        None
    } else if s[i] == 59 {
        Some(i)
    } else {
        find_semicolon(s, i + 1)
    }
}

fn field_at(s: &[u8], i: usize) -> (r: Option<(JavaType, usize)>)
    ensures
        match r {
            Some((t, j)) => parse_field(s@, i as int) == Some((t, j as int)),
            None => parse_field(s@, i as int) is None,
        },
    decreases s@.len() - i,
{
    if i >= s.len() {
        return None;
    }
    let c = s[i];
    match primitive_letter(c) {
        Some(t) => Some((t, i + 1)),
        None => {
            if c == 76 {
                proof {
                    lemma_semicolon_in_range(s@, i + 1);
                }
                match find_semicolon(s, i + 1) {
                    Some(j) => if j > i + 1 { Some((JavaType::Object, j + 1)) } else { None },
                    None => None,
                }
            } else if c == 91 {
                match field_at(s, i + 1) {
                    Some((_, j)) => Some((JavaType::Array, j)),
                    None => None,
                }
            } else {
                None
            }
        },
    }
}

/// The `j` of a parsed field lies past `i` and within the text.
proof fn lemma_field_advances(s: Seq<u8>, i: int)
    ensures
        parse_field(s, i) is Some ==> i < parse_field(s, i).unwrap().1 <= s.len(),
    decreases s.len() - i,
{
    if 0 <= i < s.len() && primitive_of(s[i]) is None && s[i] == 91 {
        lemma_field_advances(s, i + 1);
    }
    if 0 <= i < s.len() && primitive_of(s[i]) is None && s[i] == 76 {
        lemma_semicolon_in_range(s, i + 1);
    }
}

proof fn lemma_semicolon_in_range(s: Seq<u8>, i: int)
    ensures
        semicolon_from(s, i) is Some ==> i <= semicolon_from(s, i)->0 < s.len(),
    decreases s.len() - i,
{
    if 0 <= i < s.len() && s[i] != 59 {
        lemma_semicolon_in_range(s, i + 1);
    }
}

fn params_at(s: &[u8], i: usize, out: &mut Vec<JavaType>) -> (r: Option<usize>)
    ensures
        match r {
            Some(k) => parse_params(s@, i as int) is Some
                && parse_params(s@, i as int).unwrap().1 == k as int
                && final(out)@ == old(out)@ + parse_params(s@, i as int).unwrap().0,
            None => parse_params(s@, i as int) is None,
        },
    decreases s@.len() - i,
{
    if i >= s.len() {
        return None;
    }
    if s[i] == 41 {
        assert(old(out)@ + Seq::<JavaType>::empty() =~= old(out)@);
        return Some(i + 1);
    }
    match field_at(s, i) {
        Some((t, j)) => {
            proof {
                lemma_field_advances(s@, i as int);
            }
            if i < j && j <= s.len() {
                out.push(t);
                let r = params_at(s, j, out);
                proof {
                    if r is Some {
                        let ts = parse_params(s@, j as int).unwrap().0;
                        assert(old(out)@.push(t) + ts =~= old(out)@ + (seq![t] + ts));
                    }
                }
                r
            } else {
                None
            }
        },
        None => None,
    }
}

/// Parses a method descriptor such as `(ILjava/lang/String;)V`.
pub fn parse_signature(sig: &str) -> (r: Result<MethodSignature, BridgeError>)
    ensures
        match r {
            Ok(m) => parse_descriptor(sig.spec_bytes()) == Some((m.params@, m.ret)),
            Err(e) => parse_descriptor(sig.spec_bytes()) is None && e is SignatureMismatch,
        },
{
    let s = sig.as_bytes();
    if s.len() == 0 || s[0] != 40 {
        return Err(BridgeError::SignatureMismatch);
    }
    let mut params: Vec<JavaType> = Vec::new();
    match params_at(s, 1, &mut params) {
        Some(i) => {
            assert(params@ =~= parse_params(s@, 1).unwrap().0);
            if i < s.len() && s[i] == 86 && i + 1 == s.len() {
                Ok(MethodSignature { params, ret: None })
            } else {
                match field_at(s, i) {
                    Some((t, j)) => if j == s.len() {
                        Ok(MethodSignature { params, ret: Some(t) })
                    } else {
                        Err(BridgeError::SignatureMismatch)
                    },
                    None => Err(BridgeError::SignatureMismatch),
                }
            }
        },
        None => Err(BridgeError::SignatureMismatch),
    }
}

/// Whether value `v` may be passed where type `t` is declared.
pub open spec fn fits(t: JavaType, v: BridgeValue) -> bool {
    match v {
        BridgeValue::Void => false,
        BridgeValue::Bool(_) => t == JavaType::Boolean,
        BridgeValue::Byte(_) => t == JavaType::Byte,
        BridgeValue::Char(_) => t == JavaType::Char,
        BridgeValue::Short(_) => t == JavaType::Short,
        BridgeValue::Int(_) => t == JavaType::Int,
        BridgeValue::Long(_) => t == JavaType::Long,
        BridgeValue::FloatBits(_) => t == JavaType::Float,
        BridgeValue::DoubleBits(_) => t == JavaType::Double,
        BridgeValue::Str(_) => t == JavaType::Object,
        BridgeValue::Object(_) => t == JavaType::Object || t == JavaType::Array,
        BridgeValue::Null => t == JavaType::Object || t == JavaType::Array,
    }
}

/// The arguments match the parameter types in number and, one by one, in type.
pub open spec fn args_fit(ts: Seq<JavaType>, vs: Seq<BridgeValue>) -> bool {
    &&& ts.len() == vs.len()
    &&& forall|i: int| 0 <= i < ts.len() ==> #[trigger] fits(ts[i], vs[i])
}

pub fn value_fits(t: JavaType, v: &BridgeValue) -> (r: bool)
    ensures
        r == fits(t, *v),
{
    match v {
        BridgeValue::Void => false,
        BridgeValue::Bool(_) => t == JavaType::Boolean,
        BridgeValue::Byte(_) => t == JavaType::Byte,
        BridgeValue::Char(_) => t == JavaType::Char,
        BridgeValue::Short(_) => t == JavaType::Short,
        BridgeValue::Int(_) => t == JavaType::Int,
        BridgeValue::Long(_) => t == JavaType::Long,
        BridgeValue::FloatBits(_) => t == JavaType::Float,
        BridgeValue::DoubleBits(_) => t == JavaType::Double,
        BridgeValue::Str(_) => t == JavaType::Object,
        BridgeValue::Object(_) => t == JavaType::Object || t == JavaType::Array,
        BridgeValue::Null => t == JavaType::Object || t == JavaType::Array,
    }
}

/// Checks arity first, then each argument against its declared type.
pub fn arguments_fit(params: &Vec<JavaType>, args: &Vec<BridgeValue>) -> (r: bool)
    ensures
        r == args_fit(params@, args@),
{
    if params.len() != args.len() {
        return false;
    }
    let mut i: usize = 0;
    while i < params.len()
        invariant
            params@.len() == args@.len(),
            i <= params@.len(),
            forall|j: int| 0 <= j < i ==> #[trigger] fits(params@[j], args@[j]),
        decreases params@.len() - i,
    {
        if !value_fits(params[i], &args[i]) {
            return false;
        }
        i = i + 1;
    }
    true
}

/// The model of a reference table: the open call scopes, innermost last, each
/// with the ids of its scope-bounded references, and the promoted ids.
pub type RefModel = (Seq<Seq<u64>>, Seq<u64>);

/// Reference `id` may be used: it belongs to an open scope or was promoted.
pub open spec fn live(m: RefModel, id: u64) -> bool {
    (exists|i: int| 0 <= i < m.0.len() && #[trigger] m.0[i].contains(id)) || m.1.contains(id)
}

/// Reference `id` belongs to an open scope.
pub open spec fn scoped(m: RefModel, id: u64) -> bool {
    exists|i: int| 0 <= i < m.0.len() && #[trigger] m.0[i].contains(id)
}

/// Every object argument is a live reference.
pub open spec fn args_live(m: RefModel, vs: Seq<BridgeValue>) -> bool {
    forall|i: int| 0 <= i < vs.len() && (#[trigger] vs[i]) is Object ==> live(m, vs[i]->Object_0.id)
}

/// What the managed side did with a call.
pub enum CallOutcome {
    /// The method returned this value (`Void` for a void method).
    Returned(BridgeValue),
    /// The method raised an exception, described here.
    Exception(String),
    /// Native code panicked while marshaling; the panic was caught.
    Panicked(String),
    /// The runtime's call interface failed.
    Failed(String),
}

/// Scope-bounded and promoted references handed out by the bridge. A
/// scope-bounded reference is released when its scope closes; a promoted one
/// lives until it is released explicitly.
pub struct ReferenceTable {
    frames: Vec<Vec<u64>>,
    globals: Vec<u64>,
    next_id: u64,
}

impl View for ReferenceTable {
    type V = RefModel;

    closed spec fn view(&self) -> RefModel {
        (self.frames@.map_values(|f: Vec<u64>| f@), self.globals@)
    }
}

impl ReferenceTable {
    /// Every id handed out so far lies below `next_id`.
    pub closed spec fn wf(&self) -> bool {
        &&& forall|i: int, k: int| 0 <= i < self.frames@.len() && 0 <= k < self.frames@[i]@.len()
            ==> #[trigger] self.frames@[i]@[k] < self.next_id
        &&& forall|k: int| 0 <= k < self.globals@.len() ==> #[trigger] self.globals@[k] < self.next_id
    }

    /// Every reference id has been handed out.
    pub closed spec fn exhausted(&self) -> bool {
        self.next_id == u64::MAX
    }

    pub fn new() -> (r: Self)
        ensures
            r.wf(),
            !r.exhausted(),
            r@.0 == Seq::<Seq<u64>>::empty(),
            r@.1 == Seq::<u64>::empty(),
    {
        let r = ReferenceTable { frames: Vec::new(), globals: Vec::new(), next_id: 0 };
        assert(r@.0 =~= Seq::<Seq<u64>>::empty());
        r
    }

    /// The number of open scopes.
    pub fn open_scopes(&self) -> (r: usize)
        ensures
            r == self@.0.len(),
    {
        self.frames.len()
    }

    /// Opens a scope for a call.
    pub fn push_scope(&mut self)
        requires
            old(self).wf(),
        ensures
            final(self).wf(),
            final(self)@.0 == old(self)@.0.push(Seq::empty()),
            final(self)@.1 == old(self)@.1,
            final(self).exhausted() == old(self).exhausted(),
    {
        self.frames.push(Vec::new());
        assert(self@.0 =~= old(self)@.0.push(Seq::empty()));
    }

    /// Closes the innermost scope, releasing each of its references; returns
    /// how many were released.
    pub fn pop_scope(&mut self) -> (released: usize)
        requires
            old(self).wf(),
            old(self)@.0.len() > 0,
        ensures
            final(self).wf(),
            final(self)@.0 == old(self)@.0.drop_last(),
            final(self)@.1 == old(self)@.1,
            final(self).exhausted() == old(self).exhausted(),
            released == old(self)@.0.last().len(),
    {
        let frame = self.frames.pop().unwrap();
        assert(self@.0 =~= old(self)@.0.drop_last());
        frame.len()
    }

    /// A new reference bound to the innermost scope; `None` when no scope is
    /// open or the ids are used up.
    pub fn new_local(&mut self) -> (r: Option<ObjectRef>)
        requires
            old(self).wf(),
        ensures
            final(self).wf(),
            r is Some <==> (old(self)@.0.len() > 0 && !old(self).exhausted()),
            match r {
                Some(o) => !live(old(self)@, o.id) && final(self)@.1 == old(self)@.1
                    && final(self)@.0 == old(self)@.0.update(
                        old(self)@.0.len() - 1,
                        old(self)@.0.last().push(o.id),
                    ),
                None => final(self)@ == old(self)@,
            },
    {
        let n = self.frames.len();
        if n == 0 || self.next_id == u64::MAX {
            return None;
        }
        let id = self.next_id;
        let mut frame = self.frames.pop().unwrap();
        frame.push(id);
        self.frames.push(frame);
        self.next_id = self.next_id + 1;
        assert(self@.0 =~= old(self)@.0.update(old(self)@.0.len() - 1, old(self)@.0.last().push(id)));
        assert forall|i: int, k: int| 0 <= i < self.frames@.len() && 0 <= k < self.frames@[i]@.len()
            implies #[trigger] self.frames@[i]@[k] < self.next_id by {
            if i < n - 1 {
                assert(self.frames@[i] == old(self).frames@[i]);
            } else if k < self.frames@[i]@.len() - 1 {
                assert(self.frames@[i]@[k] == old(self).frames@[i]@[k]);
            }
        }
        assert(!live(old(self)@, id)) by {
            assert forall|i: int| 0 <= i < old(self)@.0.len() implies !(#[trigger] old(self)@.0[i]).contains(id) by {
                assert forall|k: int| 0 <= k < old(self)@.0[i].len() implies old(self)@.0[i][k] != id by {
                    assert(old(self).frames@[i]@[k] < old(self).next_id);
                }
            }
            assert forall|k: int| 0 <= k < old(self)@.1.len() implies old(self)@.1[k] != id by {
                assert(old(self).globals@[k] < old(self).next_id);
            }
        }
        Some(ObjectRef { id })
    }

    fn frames_contain(&self, id: u64) -> (r: bool)
        ensures
            r == scoped(self@, id),
    {
        let mut i: usize = 0;
        while i < self.frames.len()
            invariant
                i <= self.frames@.len(),
                forall|j: int| 0 <= j < i ==> !(#[trigger] self@.0[j]).contains(id),
            decreases self.frames@.len() - i,
        {
            if contains_id(&self.frames[i], id) {
                assert(self@.0[i as int].contains(id));
                return true;
            }
            i = i + 1;
        }
        false
    }

    /// Whether `r` may be used now.
    pub fn is_live(&self, r: ObjectRef) -> (b: bool)
        ensures
            b == live(self@, r.id),
    {
        self.frames_contain(r.id) || contains_id(&self.globals, r.id)
    }

    /// Promotes a scope-bounded reference to one that outlives its scope, to
    /// be released with `release_global`.
    pub fn promote(&mut self, r: ObjectRef) -> (res: Result<ObjectRef, BridgeError>)
        requires
            old(self).wf(),
        ensures
            final(self).wf(),
            !scoped(old(self)@, r.id) ==> res is Err,
            match res {
                Ok(g) => scoped(old(self)@, r.id) && !live(old(self)@, g.id)
                    && final(self)@.0 == old(self)@.0 && final(self)@.1 == old(self)@.1.push(g.id),
                Err(e) => final(self)@ == old(self)@
                    && (e is ReferenceExpired <==> !scoped(old(self)@, r.id))
                    && (e is Internal <==> (scoped(old(self)@, r.id) && old(self).exhausted()))
                    && (e is ReferenceExpired || e is Internal),
            },
    {
        if !self.frames_contain(r.id) {
            return Err(BridgeError::ReferenceExpired);
        }
        if self.next_id == u64::MAX {
            return Err(BridgeError::Internal("reference ids exhausted".to_owned()));
        }
        let id = self.next_id;
        self.globals.push(id);
        self.next_id = self.next_id + 1;
        assert(!live(old(self)@, id)) by {
            assert forall|i: int| 0 <= i < old(self)@.0.len() implies !(#[trigger] old(self)@.0[i]).contains(id) by {
                assert forall|k: int| 0 <= k < old(self)@.0[i].len() implies old(self)@.0[i][k] != id by {
                    assert(old(self).frames@[i]@[k] < old(self).next_id);
                }
            }
            assert forall|k: int| 0 <= k < old(self)@.1.len() implies old(self)@.1[k] != id by {
                assert(old(self).globals@[k] < old(self).next_id);
            }
        }
        Ok(ObjectRef { id })
    }

    /// Releases a promoted reference.
    pub fn release_global(&mut self, r: ObjectRef) -> (res: Result<(), BridgeError>)
        requires
            old(self).wf(),
        ensures
            final(self).wf(),
            final(self)@.0 == old(self)@.0,
            match res {
                Ok(()) => exists|k: int| 0 <= k < old(self)@.1.len() && old(self)@.1[k] == r.id
                    && final(self)@.1 == old(self)@.1.remove(k),
                Err(e) => e is ReferenceExpired && !old(self)@.1.contains(r.id)
                    && final(self)@ == old(self)@,
            },
    {
        match position_of(&self.globals, r.id) {
            Some(k) => {
                self.globals.remove(k);
                assert forall|j: int| 0 <= j < self.globals@.len() implies #[trigger] self.globals@[j] < self.next_id by {
                    if j < k {
                        assert(self.globals@[j] == old(self).globals@[j]);
                    } else {
                        assert(self.globals@[j] == old(self).globals@[j + 1]);
                    }
                }
                assert(old(self)@.1[k as int] == r.id && self@.1 == old(self)@.1.remove(k as int));
                Ok(())
            },
            None => Err(BridgeError::ReferenceExpired),
        }
    }

    /// Checks a call before it is made: the target and every object argument
    /// must be live, the descriptor well formed, and the arguments must fit it.
    pub fn check_call(&self, target: ObjectRef, sig: &str, args: &Vec<BridgeValue>) -> (r: Result<MethodSignature, BridgeError>)
        ensures
            match r {
                Ok(m) => live(self@, target.id) && args_live(self@, args@)
                    && parse_descriptor(sig.spec_bytes()) == Some((m.params@, m.ret))
                    && args_fit(m.params@, args@),
                Err(e) => if !live(self@, target.id) || !args_live(self@, args@) {
                    e is ReferenceExpired
                } else {
                    e is SignatureMismatch && (parse_descriptor(sig.spec_bytes()) is None
                        || !args_fit(parse_descriptor(sig.spec_bytes()).unwrap().0, args@))
                },
            },
    {
        if !self.is_live(target) {
            return Err(BridgeError::ReferenceExpired);
        }
        let mut i: usize = 0;
        while i < args.len()
            invariant
                i <= args@.len(),
                forall|j: int| 0 <= j < i && (#[trigger] args@[j]) is Object ==> live(self@, args@[j]->Object_0.id),
            decreases args@.len() - i,
        {
            match &args[i] {
                BridgeValue::Object(o) => {
                    if !self.is_live(*o) {
                        return Err(BridgeError::ReferenceExpired);
                    }
                },
                _ => {},
            }
            i = i + 1;
        }
        let m = parse_signature(sig)?;
        if !arguments_fit(&m.params, args) {
            return Err(BridgeError::SignatureMismatch);
        }
        Ok(m)
    }

    /// Starts an invocation: checks it, and on success opens the call's
    /// scope. On failure nothing is opened or handed out.
    pub fn begin_invoke(&mut self, target: ObjectRef, sig: &str, args: &Vec<BridgeValue>) -> (r: Result<MethodSignature, BridgeError>)
        requires
            old(self).wf(),
        ensures
            final(self).wf(),
            final(self).exhausted() == old(self).exhausted(),
            match r {
                Ok(m) => live(old(self)@, target.id) && args_live(old(self)@, args@)
                    && parse_descriptor(sig.spec_bytes()) == Some((m.params@, m.ret))
                    && args_fit(m.params@, args@)
                    && final(self)@.0 == old(self)@.0.push(Seq::empty())
                    && final(self)@.1 == old(self)@.1,
                Err(e) => final(self)@ == old(self)@
                    && if !live(old(self)@, target.id) || !args_live(old(self)@, args@) {
                        e is ReferenceExpired
                    } else {
                        e is SignatureMismatch && (parse_descriptor(sig.spec_bytes()) is None
                            || !args_fit(parse_descriptor(sig.spec_bytes()).unwrap().0, args@))
                    },
            },
    {
        let m = self.check_call(target, sig, args)?;
        self.push_scope();
        Ok(m)
    }

    /// Ends an invocation begun with `begin_invoke`: closes its scope, which
    /// releases every reference made during the call, and turns what the
    /// managed side did into a result.
    pub fn finish_invoke(&mut self, sig: &MethodSignature, outcome: CallOutcome) -> (r: Result<BridgeValue, BridgeError>)
        requires
            old(self).wf(),
            old(self)@.0.len() > 0,
        ensures
            final(self).wf(),
            final(self)@.0 == old(self)@.0.drop_last(),
            final(self)@.1 == old(self)@.1,
            final(self).exhausted() == old(self).exhausted(),
            finish_result(sig.ret, outcome, r),
    {
        let _ = self.pop_scope();
        match outcome {
            CallOutcome::Returned(v) => match sig.ret {
                None => match v {
                    BridgeValue::Void => Ok(BridgeValue::Void),
                    _ => Err(BridgeError::ConversionError("value returned from a void method".to_owned())),
                },
                Some(t) => if value_fits(t, &v) {
                    Ok(v)
                } else {
                    Err(BridgeError::ConversionError("returned value does not fit the declared type".to_owned()))
                },
            },
            CallOutcome::Exception(d) => Err(BridgeError::PendingRuntimeException(d)),
            CallOutcome::Panicked(m) => Err(BridgeError::Internal(m)),
            CallOutcome::Failed(m) => Err(BridgeError::JniError(m)),
        }
    }
}

/// `r` is the result owed for a call with declared result type `ret` and
/// this outcome: the value when it fits the type, else a conversion error;
/// the managed side's exception, a caught panic or an interface failure
/// each as its own error, with its description.
pub open spec fn finish_result(ret: Option<JavaType>, outcome: CallOutcome, r: Result<BridgeValue, BridgeError>) -> bool {
    match outcome {
        CallOutcome::Returned(v) => match ret {
            None => if v is Void {
                r == Ok::<BridgeValue, BridgeError>(BridgeValue::Void)
            } else {
                r is Err && r->Err_0 is ConversionError
            },
            Some(t) => if fits(t, v) {
                r == Ok::<BridgeValue, BridgeError>(v)
            } else {
                r is Err && r->Err_0 is ConversionError
            },
        },
        CallOutcome::Exception(d) => r == Err::<BridgeValue, BridgeError>(BridgeError::PendingRuntimeException(d)),
        CallOutcome::Panicked(m) => r == Err::<BridgeValue, BridgeError>(BridgeError::Internal(m)),
        CallOutcome::Failed(m) => r == Err::<BridgeValue, BridgeError>(BridgeError::JniError(m)),
    }
}

fn position_of(v: &Vec<u64>, id: u64) -> (r: Option<usize>)
    ensures
        match r {
            Some(k) => k < v@.len() && v@[k as int] == id,
            None => !v@.contains(id),
        },
{
    let mut i: usize = 0;
    while i < v.len()
        invariant
            i <= v@.len(),
            forall|j: int| 0 <= j < i ==> v@[j] != id,
        decreases v@.len() - i,
    {
        if v[i] == id {
            return Some(i);
        }
        i = i + 1;
    }
    None
}

fn contains_id(v: &Vec<u64>, id: u64) -> (r: bool)
    ensures
        r == v@.contains(id),
{
    let mut i: usize = 0;
    while i < v.len()
        invariant
            i <= v@.len(),
            forall|j: int| 0 <= j < i ==> v@[j] != id,
        decreases v@.len() - i,
    {
        if v[i] == id {
            return true;
        }
        i = i + 1;
    }
    false
}

/// Native methods are bound by the exported entry points' names; there is
/// nothing to record on this side.
pub fn register_native_method() {
}

} // verus!
