//! Scope handles, the four-valued logic type, and the model of the raw
//! interface state they operate on.

use vstd::prelude::*;

pub mod param;

verus! {

/// Byte encoding of logic zero, fixed by the raw interface.
pub const SV_0: u8 = 0;

/// Byte encoding of logic one, fixed by the raw interface.
pub const SV_1: u8 = 1;

/// Byte encoding of the unknown state, fixed by the raw interface.
pub const SV_Z: u8 = 2;

/// Byte encoding of the high-impedance state, fixed by the raw interface.
pub const SV_X: u8 = 3;

/// Four-valued logic: the simulator's four-state signal value model.
///
/// Each variant is carried across the boundary as a fixed single-byte
/// encoding; see [`Logic::to_byte`] and [`Logic::from_byte`].
#[derive(Clone, Copy, PartialEq, Eq, Structural, Hash, Debug)]
pub enum Logic {
    /// logic zero
    Value0,
    /// logic one
    Value1,
    /// unknown logic value
    Z,
    /// high-impedance state
    X,
}

impl Logic {
    /// The fixed byte each variant is encoded as.
    pub open spec fn spec_to_byte(self) -> u8 {
        match self {
            Logic::Value0 => SV_0,
            Logic::Value1 => SV_1,
            Logic::Z => SV_Z,
            Logic::X => SV_X,
        }
    }

    /// The variant a byte in the encoding range decodes to.
    pub open spec fn spec_from_byte(code: u8) -> Logic {
        if code == SV_0 {
            Logic::Value0
        } else if code == SV_1 {
            Logic::Value1
        } else if code == SV_Z {
            Logic::Z
        } else {
            Logic::X
        }
    }

    /// The boolean a definite value stands for; `None` for `Z` and `X`.
    pub open spec fn spec_into_bool(self) -> Option<bool> {
        match self {
            Logic::Value0 => Some(false),
            Logic::Value1 => Some(true),
            Logic::Z => None,
            Logic::X => None,
        }
    }

    /// The definite value a boolean stands for.
    pub open spec fn spec_from_bool(value: bool) -> Logic {
        if value {
            Logic::Value1
        } else {
            Logic::Value0
        }
    }

    /// Encode this value as the raw interface's single-byte encoding.
    pub fn to_byte(self) -> (code: u8)
        ensures
            code == self.spec_to_byte(),
            code <= 3,
    {
        match self {
            Logic::Value0 => SV_0,
            Logic::Value1 => SV_1,
            Logic::Z => SV_Z,
            Logic::X => SV_X,
        }
    }

    /// Decode the raw interface's single-byte encoding.
    ///
    /// A byte outside the encoding range never arrives from a correct
    /// simulator; decoding one would be an internal-invariant failure, so
    /// such bytes are excluded by precondition.
    pub fn from_byte(code: u8) -> (r: Logic)
        requires
            code <= 3,
        ensures
            r == Logic::spec_from_byte(code),
    {
        if code == SV_0 {
            Logic::Value0
        } else if code == SV_1 {
            Logic::Value1
        } else if code == SV_Z {
            Logic::Z
        } else {
            Logic::X
        }
    }

    /// Interpret `X` and `Z` as `None`; the definite values map to their
    /// booleans.
    pub fn into_bool(self) -> (r: Option<bool>)
        ensures
            r == self.spec_into_bool(),
    {
        match self {
            Logic::Value0 => Some(false),
            Logic::Value1 => Some(true),
            _ => None,
        }
    }

    /// Interpret `None` as `X`; `Some` maps to the matching definite value.
    pub fn from_bool_x(value: Option<bool>) -> (r: Logic)
        ensures
            value matches Some(b) ==> r == Logic::spec_from_bool(b),
            value is None ==> r == Logic::X,
    {
        match value {
            Some(false) => Logic::Value0,
            Some(true) => Logic::Value1,
            None => Logic::X,
        }
    }

    /// Interpret `None` as `Z`; `Some` maps to the matching definite value.
    pub fn from_bool_z(value: Option<bool>) -> (r: Logic)
        ensures
            value matches Some(b) ==> r == Logic::spec_from_bool(b),
            value is None ==> r == Logic::Z,
    {
        match value {
            Some(false) => Logic::Value0,
            Some(true) => Logic::Value1,
            None => Logic::Z,
        }
    }
}

impl From<bool> for Logic {
    /// `true` maps to `Value1`, `false` to `Value0`: lossless for definite
    /// values.
    fn from(value: bool) -> (r: Logic) {
        match value {
            false => Logic::Value0,
            true => Logic::Value1,
        }
    }
}

impl vstd::std_specs::convert::FromSpecImpl<bool> for Logic {
    open spec fn obeys_from_spec() -> bool {
        true
    }

    open spec fn from_spec(value: bool) -> Logic {
        Logic::spec_from_bool(value)
    }
}

impl From<Logic> for u8 {
    /// A logic value converts to its fixed byte encoding.
    fn from(value: Logic) -> (code: u8) {
        value.to_byte()
    }
}

impl vstd::std_specs::convert::FromSpecImpl<Logic> for u8 {
    open spec fn obeys_from_spec() -> bool {
        true
    }

    open spec fn from_spec(value: Logic) -> u8 {
        value.spec_to_byte()
    }
}

impl Default for Logic {
    /// The default logic value is logic zero.
    fn default() -> (r: Logic)
        ensures
            r == Logic::Value0,
    {
        Logic::Value0
    }
}

/// A definite logic value projects back to the boolean it came from:
/// conversion from `bool` loses nothing.
pub proof fn lemma_from_bool_into_bool(b: bool)
    ensures
        Logic::spec_from_bool(b).spec_into_bool() == Some(b),
{
}

/// The byte encoding round-trips: decoding any byte in the encoding range
/// and re-encoding it yields the same byte, and the definite codes decode
/// to values that project to the matching boolean.
pub proof fn lemma_byte_round_trip(code: u8)
    requires
        code <= 3,
    ensures
        Logic::spec_from_byte(code).spec_to_byte() == code,
        code <= 1 ==> Logic::spec_from_byte(code).spec_into_bool() == Some(code == 1),
{
}

/// Encoding a logic value and decoding the byte again yields the value:
/// no two variants share an encoding.
pub proof fn lemma_logic_byte_identity(v: Logic)
    ensures
        Logic::spec_from_byte(v.spec_to_byte()) == v,
{
}

/// Get the current simulation time in simulation time units from the time
/// record the raw interface filled in, composed as high word before low
/// word.
///
/// The underlying query reports a status code beside the record; a
/// non-zero status signals a broken simulator integration and makes the
/// original operation abort, so it is excluded by precondition.
pub fn get_time(status: i32, high: u32, low: u32) -> (t: u64)
    requires
        status == 0,
    ensures
        t == (high as u64) * 0x1_0000_0000 + (low as u64),
{
    (high as u64) * 0x1_0000_0000 + (low as u64)
}

/// A byte sequence that can stand for a C-style string: no embedded null
/// byte (the terminator is implicit and never stored).
pub open spec fn name_ok(name: Seq<u8>) -> bool {
    forall|i: int| 0 <= i < name.len() ==> name[i] != 0
}

/// The raw interface's process-wide state, modeled as an explicit value:
/// the simulator-owned table of fully qualified scope names and the
/// current-scope cell.
///
/// The simulator owns this state for the run's duration and serializes all
/// boundary calls into it; every operation of the scope layer takes the
/// table as an argument instead of reaching for a global.  A test can
/// therefore substitute a table of its own for the simulator's.
#[verifier::ext_equal]
pub struct ScopeTable {
    /// The fully qualified name of each scope, indexed by handle.
    pub names: Vec<Vec<u8>>,
    /// The currently installed scope, if any.
    pub current: Option<SvScope>,
}

/// A non-null handle to a scope: an opaque reference into the simulator's
/// scope table.
///
/// A handle never owns the scope it names (the simulator does) and is
/// freely copyable; equality is by underlying reference.  Handles are
/// created only by name lookup or by reading back the current scope, and a
/// handle obtained once stays valid for the run.
#[derive(Clone, Copy, PartialEq, Eq, Structural, Debug)]
pub struct SvScope {
    id: usize,
}

impl SvScope {
    /// The index this handle refers to in the simulator's scope table.
    pub closed spec fn id(self) -> int {
        self.id as int
    }
}

impl ScopeTable {
    /// The handle refers to an entry of this table.
    pub open spec fn scope_valid(self, scope: SvScope) -> bool {
        0 <= scope.id() < self.names@.len()
    }

    /// Every entry is a representable C-style name and the installed
    /// current scope, if any, refers to an entry.
    pub open spec fn wf(self) -> bool {
        &&& forall|i: int| 0 <= i < self.names@.len() ==> name_ok(#[trigger] self.names@[i]@)
        &&& match self.current {
            Some(s) => self.scope_valid(s),
            None => true,
        }
    }

    /// The name the table holds for a handle.
    pub open spec fn spec_name_of(self, scope: SvScope) -> Seq<u8> {
        self.names@[scope.id()]@
    }

    /// Whether some entry of the table carries this name.
    pub open spec fn contains_name(self, name: Seq<u8>) -> bool {
        exists|i: int| 0 <= i < self.names@.len() && #[trigger] self.names@[i]@ == name
    }

    /// An empty table: no scopes, no current scope.
    pub fn new() -> (table: ScopeTable)
        ensures
            table.wf(),
            table.names@.len() == 0,
            table.current is None,
    {
        ScopeTable { names: Vec::new(), current: None }
    }

    /// Enter a scope into the table, handing back its handle.  This is how
    /// a substitute table is populated; in a live run the simulator's own
    /// hierarchy plays this part.
    pub fn register(&mut self, name: Vec<u8>) -> (scope: SvScope)
        requires
            old(self).wf(),
            name_ok(name@),
            old(self).names@.len() < usize::MAX,
        ensures
            final(self).wf(),
            final(self).names@ == old(self).names@.push(name),
            final(self).current == old(self).current,
            final(self).scope_valid(scope),
            final(self).spec_name_of(scope) == name@,
    {
        let id = self.names.len();
        self.names.push(name);
        SvScope { id }
    }
}

/// Byte-for-byte equality of two byte strings.
fn compare_bytes(a: &[u8], b: &[u8]) -> (r: bool)
    ensures
        r <==> a@ == b@,
{
    if a.len() != b.len() {
        proof {
            assert(a@.len() != b@.len());
        }
        return false;
    }
    let mut i: usize = 0;
    while i < a.len()
        invariant
            0 <= i <= a@.len(),
            a@.len() == b@.len(),
            forall|j: int| 0 <= j < i ==> a@[j] == b@[j],
        decreases a@.len() - i,
    {
        if a[i] != b[i] {
            return false;
        }
        i += 1;
    }
    proof {
        assert(a@ =~= b@);
    }
    true
}

/// What one swap of the current scope does to the table, and what it hands
/// back: the new scope goes in, the previous one comes out, and the scope
/// table itself is untouched.
pub open spec fn spec_swap(table: ScopeTable, scope: Option<SvScope>) -> (ScopeTable, Option<
    SvScope,
>) {
    ((ScopeTable { current: scope, ..table }), table.current)
}

impl SvScope {
    /// Get the fully qualified name of the scope handle, borrowed from the
    /// table that owns it.
    pub fn name(self, table: &ScopeTable) -> (name: &Vec<u8>)
        requires
            table.scope_valid(self),
        ensures
            name@ == table.spec_name_of(self),
            table.wf() ==> name_ok(name@),
    {
        &table.names[self.id]
    }

    /// Resolve a fully qualified scope name to a handle; `None` when no
    /// scope of that name exists.
    ///
    /// A name with an embedded null byte cannot be represented as a
    /// C-style string; passing one is a caller contract violation, not a
    /// lookup outcome, and is excluded by precondition.
    pub fn from_name(table: &ScopeTable, name: &[u8]) -> (scope: Option<SvScope>)
        requires
            name_ok(name@),
        ensures
            scope is Some <==> table.contains_name(name@),
            scope matches Some(s) ==> table.scope_valid(s) && table.spec_name_of(s) == name@,
    {
        let mut i: usize = 0;
        while i < table.names.len()
            invariant
                0 <= i <= table.names@.len(),
                forall|j: int| 0 <= j < i ==> #[trigger] table.names@[j]@ != name@,
            decreases table.names@.len() - i,
        {
            if compare_bytes(table.names[i].as_slice(), name) {
                return Some(SvScope { id: i });
            }
            i += 1;
        }
        None
    }

    /// Read the process-wide current scope; `None` when no scope is
    /// installed.
    pub fn get_current(table: &ScopeTable) -> (scope: Option<SvScope>)
        ensures
            scope == table.current,
            table.wf() ==> (scope matches Some(s) ==> table.scope_valid(s)),
    {
        table.current
    }

    /// Install the given scope (or clear it) as current, unconditionally.
    /// If the previous scope is needed, use [`SvScope::swap_current`].
    pub fn set_current(table: &mut ScopeTable, scope: Option<SvScope>)
        ensures
            final(table).current == scope,
            final(table).names == old(table).names,
    {
        table.current = scope;
    }

    /// Install a new current scope and hand back the previous one, in one
    /// externally synchronized call, enabling save/restore patterns
    /// without a second read.
    pub fn swap_current(table: &mut ScopeTable, scope: Option<SvScope>) -> (prev: Option<SvScope>)
        ensures
            (*final(table), prev) == spec_swap(*old(table), scope),
            final(table).current == scope,
            final(table).names == old(table).names,
            prev == old(table).current,
    {
        let prev = table.current;
        table.current = scope;
        prev
    }

    /// Install self as current, discarding the previous value; use only
    /// when restoration is not needed.
    pub fn make_current(self, table: &mut ScopeTable)
        ensures
            final(table).current == Some(self),
            final(table).names == old(table).names,
    {
        Self::set_current(table, Some(self));
    }

    /// The table as `with_current` hands it to its body: the same scope
    /// table, with self installed as current.
    pub open spec fn spec_entered(self, table: ScopeTable) -> ScopeTable {
        ScopeTable { current: Some(self), ..table }
    }

    /// Execute `body` with self installed as the current scope, then
    /// restore the previous scope and hand the table back beside `body`'s
    /// result.  Whatever `body` reads or writes about current-scope state,
    /// the table comes back with the current scope it went in with.
    ///
    /// The restore runs only on normal return; if `body` aborts
    /// abnormally, the previous scope stays uninstalled.  That is the
    /// documented, intentional weak guarantee of this helper.
    pub fn with_current<R, F: FnOnce(ScopeTable) -> (ScopeTable, R)>(
        self,
        table: ScopeTable,
        body: F,
    ) -> (out: (ScopeTable, R))
        requires
            call_requires(body, (self.spec_entered(table),)),
        ensures
            out.0.current == table.current,
            exists|mid: ScopeTable|
                #[trigger] call_ensures(body, (self.spec_entered(table),), (mid, out.1))
                    && out.0.names == mid.names,
    {
        let mut t = table;
        let ghost entry = t;
        let prev = Self::swap_current(&mut t, Some(self));
        proof {
            assert(t =~= self.spec_entered(entry));
        }
        let (mid, ret) = body(t);
        let ghost gmid = mid;
        let mut t2 = mid;
        Self::set_current(&mut t2, prev);
        let out = (t2, ret);
        proof {
            assert(call_ensures(body, (self.spec_entered(table),), (gmid, out.1))
                && out.0.names == gmid.names);
        }
        out
    }
}

/// Look a scope up by name and install it as current; retained for
/// backward compatibility, new code should use [`SvScope::from_name`] and
/// [`SvScope::make_current`] directly.
///
/// An unresolved name makes the original operation abort with a
/// descriptive message rather than report absence; that input is excluded
/// by precondition here.
pub fn set_scope_by_name(table: &mut ScopeTable, name: &[u8])
    requires
        name_ok(name@),
        old(table).contains_name(name@),
    ensures
        final(table).names == old(table).names,
        final(table).current matches Some(s) && final(table).spec_name_of(s) == name@,
{
    let scope = SvScope::from_name(table, name).unwrap();
    scope.make_current(table);
}

/// Install the given scope as current, unconditionally; retained for
/// backward compatibility, new code should use [`SvScope::make_current`].
pub fn set_scope(table: &mut ScopeTable, scope: SvScope)
    ensures
        final(table).current == Some(scope),
        final(table).names == old(table).names,
{
    scope.make_current(table);
}

/// Swapping a new scope in and then swapping the returned previous handle
/// back restores the table exactly.
pub proof fn lemma_swap_save_restore(table: ScopeTable, scope: Option<SvScope>)
    ensures
        ({
            let (t1, prev) = spec_swap(table, scope);
            spec_swap(t1, prev).0 == table
        }),
{
    let (t1, prev) = spec_swap(table, scope);
    assert(spec_swap(t1, prev).0 =~= table);
}

/// A chain of swaps unwound in reverse order reconstructs every earlier
/// state: swapping in `n1` then `n2`, and swapping the two saved handles
/// back in reverse, passes back through the intermediate table and ends at
/// the original one.
pub proof fn lemma_swap_sequence_restores(table: ScopeTable, n1: Option<SvScope>, n2: Option<
    SvScope,
>)
    ensures
        ({
            let (t1, p1) = spec_swap(table, n1);
            let (t2, p2) = spec_swap(t1, n2);
            let (t3, q2) = spec_swap(t2, p2);
            let (t4, q1) = spec_swap(t3, p1);
            t3 == t1 && t4 == table && q2 == n2 && q1 == n1
        }),
{
    let (t1, p1) = spec_swap(table, n1);
    let (t2, p2) = spec_swap(t1, n2);
    let (t3, q2) = spec_swap(t2, p2);
    let (t4, q1) = spec_swap(t3, p1);
    assert(t3 =~= t1);
    assert(t4 =~= table);
}

} // verus!
