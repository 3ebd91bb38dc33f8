//! Compiled-program store: a cache of compiled GPU programs keyed by stable
//! handles, with hot-reload that replaces a program in place while the
//! handle stays valid.
//!
//! Compilation itself is an outside collaborator: callers compile shader
//! source to bytecode (or to an error) and hand the outcome in. The store
//! owns everything after that: handle allocation, lookup, and the reload
//! rules (a failed reload leaves the previous program untouched; a
//! successful one replaces exactly the entries whose source path matches).
//!
//! The backing table is a slot map, so handles stay stable across every
//! other insertion and reload.

use vstd::prelude::*;

verus! {

/// Error produced when turning shader source into a program fails.
#[derive(Debug)]
pub enum PipelineErr {
    ShaderCompilation(String),
}

impl PipelineErr {
    /// The compiler's message text.
    pub fn message(&self) -> (r: &String)
        ensures
            self matches PipelineErr::ShaderCompilation(m) && r == m,
    {
        match self {
            PipelineErr::ShaderCompilation(m) => m,
        }
    }
}

/// Which kind of device pipeline a compiled program drives. The core
/// schedules compute work; the graphics variant exists so that a program
/// value can name its bind point without virtual dispatch.
#[derive(Clone, Copy, Debug, PartialEq, Eq)]
pub enum ProgramKind {
    Compute,
    Graphics,
}

/// One compiled program: its bytecode and a process-unique identity that
/// changes whenever the program is recompiled, so that holders can tell a
/// fresh compilation from the one they already saw.
#[derive(Clone, Debug)]
pub struct CompiledProgram {
    pub id: u64,
    pub kind: ProgramKind,
    pub code: Vec<u32>,
}

impl CompiledProgram {
    /// The bind point a recorder must use for this program.
    pub fn bind_point(&self) -> (r: ProgramKind)
        ensures
            r == self.kind,
    {
        match self.kind {
            ProgramKind::Compute => ProgramKind::Compute,
            ProgramKind::Graphics => ProgramKind::Graphics,
        }
    }
}

/// What a registered program was built from: the shader's source path and
/// the shared resource layout — how many storage images the bound array
/// exposes, the work-group edge the shader is compiled for (both also
/// handed to the compiler as macro definitions), and the size in bytes of
/// the constant block every pass pushes.
#[derive(Clone, Debug)]
pub struct PipelineConfig {
    pub shader_path: String,
    pub image_count: u32,
    pub workgroup_size: u32,
    pub push_constant_size: u32,
}

/// A stored entry: the configuration it was registered with and the program
/// currently compiled for it.
#[derive(Clone, Debug)]
pub struct PipelineEntry {
    pub config: PipelineConfig,
    pub program: CompiledProgram,
}

/// Stable handle to a registered program. It outlives hot-reloads of the
/// program it names.
pub type PipelineKey = slotmap::DefaultKey;

#[verifier::external_type_specification]
#[verifier::external_body]
pub struct ExDefaultKey(slotmap::DefaultKey);

/// Backing table of the store: a slot map of entries, opaque to the
/// verifier. Its contents are named by `table_view` and `table_len`, and
/// every access goes through the trusted operations below.
#[verifier::external_body]
pub struct ProgramTable {
    map: slotmap::SlotMap<slotmap::DefaultKey, PipelineEntry>,
}

/// The empty entry table.
pub open spec fn empty_entries() -> Map<slotmap::DefaultKey, PipelineEntry> {
    Map::empty()
}

/// The entries a slot map holds, keyed by their handles.
pub uninterp spec fn table_view(
    m: ProgramTable,
) -> Map<slotmap::DefaultKey, PipelineEntry>;

/// How many entries a slot map holds.
pub uninterp spec fn table_len(
    m: ProgramTable,
) -> nat;

/// Relies on slotmap::SlotMap::new: a freshly created slot map is empty.
#[verifier::external_body]
fn table_new() -> (r: ProgramTable)
    ensures
        table_view(r) == empty_entries(),
        table_len(r) == 0,
{
    ProgramTable { map: slotmap::SlotMap::new() }
}

/// Relies on slotmap::SlotMap::insert: stores the value under a fresh key
/// that is distinct from every key currently present, and leaves the other
/// entries as they were. The length bound keeps the call below the slot
/// map's capacity limit, at which it would abort.
#[verifier::external_body]
fn table_insert(
    m: &mut ProgramTable,
    v: PipelineEntry,
) -> (k: slotmap::DefaultKey)
    requires
        table_len(*old(m)) < 0xffff_fffe,
    ensures
        !table_view(*old(m)).contains_key(k),
        table_view(*final(m)) == table_view(*old(m)).insert(k, v),
        table_len(*final(m)) == table_len(*old(m)) + 1,
{
    m.map.insert(v)
}

/// Relies on slotmap::SlotMap::get: returns the entry stored under the key,
/// or None when the key names no entry.
#[verifier::external_body]
fn table_get(
    m: &ProgramTable,
    k: slotmap::DefaultKey,
) -> (r: Option<PipelineEntry>)
    ensures
        r == if table_view(*m).contains_key(k) {
            Some(table_view(*m)[k])
        } else {
            None::<PipelineEntry>
        },
{
    m.map.get(k).cloned()
}

/// Relies on slotmap::SlotMap::keys: yields each present key exactly once.
#[verifier::external_body]
fn table_keys(
    m: &ProgramTable,
) -> (r: Vec<slotmap::DefaultKey>)
    ensures
        r@.no_duplicates(),
        r@.len() == table_len(*m),
        forall|i: int| 0 <= i < r@.len() ==> table_view(*m).contains_key(#[trigger] r@[i]),
        forall|k: slotmap::DefaultKey|
            #[trigger] table_view(*m).contains_key(k) ==> r@.contains(k),
{
    m.map.keys().collect()
}

/// Relies on slotmap::SlotMap::get_mut: replaces the entry stored under a
/// present key and touches nothing else; on an absent key the map is
/// unchanged.
#[verifier::external_body]
fn table_set(
    m: &mut ProgramTable,
    k: slotmap::DefaultKey,
    v: PipelineEntry,
) -> (r: bool)
    ensures
        r == table_view(*old(m)).contains_key(k),
        table_view(*final(m)) == if table_view(*old(m)).contains_key(k) {
            table_view(*old(m)).insert(k, v)
        } else {
            table_view(*old(m))
        },
        table_len(*final(m)) == table_len(*old(m)),
{
    if let Some(slot) = m.map.get_mut(k) {
        *slot = v;
        true
    } else {
        false
    }
}

/// An owned copy of a bytecode word vector.
pub(crate) fn copy_words(v: &Vec<u32>) -> (r: Vec<u32>)
    ensures
        r@ == v@,
{
    let mut r: Vec<u32> = Vec::new();
    let mut i: usize = 0;
    while i < v.len()
        invariant
            0 <= i <= v.len(),
            r@ == v@.take(i as int),
        decreases v.len() - i,
    {
        r.push(v[i]);
        i = i + 1;
    }
    proof {
        assert(v@.take(v@.len() as int) =~= v@);
    }
    r
}

/// The compiled-program cache. Handles handed out by `insert` stay valid
/// and stable across hot-reloads; `get` is a cheap copy of the entry's
/// current program.
pub struct PipelineStore {
    table: ProgramTable,
    count: u64,
    next_id: u64,
}

impl PipelineStore {
    /// The registered entries, keyed by handle.
    pub closed spec fn entries(&self) -> Map<PipelineKey, PipelineEntry> {
        table_view(self.table)
    }

    /// Number of registered entries.
    pub closed spec fn entry_count(&self) -> nat {
        table_len(self.table)
    }

    /// Identity the next compiled program will receive.
    pub closed spec fn next_program_id(&self) -> u64 {
        self.next_id
    }

    /// Internal consistency: the entry counter mirrors the table, stays
    /// below the table's capacity limit, and every stored program identity
    /// is older than the next one to be handed out.
    pub closed spec fn wf(&self) -> bool {
        &&& self.count as nat == table_len(self.table)
        &&& self.count <= 0xffff_fffe
        &&& forall|k: PipelineKey|
            #[trigger] self.entries().contains_key(k)
                ==> self.entries()[k].program.id < self.next_id
    }

    /// Room left for one registration.
    pub open spec fn can_insert(&self) -> bool {
        &&& self.entry_count() < 0xffff_fffe
        &&& self.next_program_id() < u64::MAX
    }

    /// Room left for a reload to assign fresh identities to every entry.
    pub open spec fn can_reload(&self) -> bool {
        self.next_program_id() <= u64::MAX - 0x1_0000_0000
    }

    pub fn new() -> (r: Self)
        ensures
            r.wf(),
            r.entries() == empty_entries(),
            r.entry_count() == 0,
            r.next_program_id() == 0,
    {
        PipelineStore { table: table_new(), count: 0, next_id: 0 }
    }

    /// Number of registered programs.
    pub fn len(&self) -> (r: u64)
        requires
            self.wf(),
        ensures
            r as nat == self.entry_count(),
    {
        self.count
    }

    /// Whether `additional` more registrations fit, and a reload may still
    /// assign fresh identities: the runtime test for the arithmetic
    /// bounds that `insert` and `reload` require.
    pub fn has_headroom(&self, additional: u64) -> (r: bool)
        requires
            self.wf(),
        ensures
            r == (self.entry_count() + additional <= 0xffff_fffe
                && self.next_program_id() as nat + additional <= u64::MAX as nat
                && self.can_reload()),
    {
        additional <= 0xffff_fffe - self.count && additional <= u64::MAX - self.next_id
            && self.next_id <= u64::MAX - 0x1_0000_0000
    }

    /// Registers a program under a fresh handle. The caller hands in the
    /// compiler's outcome for the configured source: on bytecode the entry
    /// is stored and its handle returned; on a compile error the error is
    /// returned and the store is left exactly as it was.
    pub fn insert(
        &mut self,
        config: PipelineConfig,
        compiled: Result<Vec<u32>, PipelineErr>,
    ) -> (r: Result<PipelineKey, PipelineErr>)
        requires
            old(self).wf(),
            old(self).can_insert(),
        ensures
            final(self).wf(),
            compiled matches Err(e) ==> r matches Err(e2) && e2 == e
                && *final(self) == *old(self),
            compiled matches Ok(code) ==> r matches Ok(k)
                && !old(self).entries().contains_key(k)
                && final(self).entries() == old(self).entries().insert(
                    k,
                    PipelineEntry {
                        config,
                        program: CompiledProgram {
                            id: old(self).next_program_id(),
                            kind: ProgramKind::Compute,
                            code,
                        },
                    },
                )
                && final(self).entry_count() == old(self).entry_count() + 1
                && final(self).next_program_id() == old(self).next_program_id() + 1,
    {
        match compiled {
            Err(e) => Err(e),
            Ok(code) => {
                let entry = PipelineEntry {
                    config,
                    program: CompiledProgram { id: self.next_id, kind: ProgramKind::Compute, code },
                };
                let k = table_insert(&mut self.table, entry);
                self.count = self.count + 1;
                self.next_id = self.next_id + 1;
                Ok(k)
            },
        }
    }

    /// Applies the outcome of recompiling the shader at `path` to every
    /// entry registered for that path. On a compile error the error is
    /// returned and the store is left exactly as it was, so every handle
    /// still yields the very program object it yielded before the attempt.
    /// On bytecode, exactly the matching entries receive a newly compiled
    /// program (a fresh identity carrying the new code) while every other
    /// entry is untouched; a reload that matches no entry is a no-op.
    #[verifier::loop_isolation(false)]
    pub fn reload(
        &mut self,
        path: &String,
        compiled: Result<Vec<u32>, PipelineErr>,
    ) -> (r: Result<(), PipelineErr>)
        requires
            old(self).wf(),
            old(self).can_reload(),
        ensures
            final(self).wf(),
            compiled matches Err(e) ==> r matches Err(e2) && e2 == e
                && *final(self) == *old(self),
            compiled matches Ok(code) ==> r is Ok
                && final(self).entries().dom() == old(self).entries().dom()
                && (forall|k: PipelineKey| #[trigger] old(self).entries().contains_key(k)
                    ==> if old(self).entries()[k].config.shader_path@ == path@ {
                        &&& final(self).entries()[k].config == old(self).entries()[k].config
                        &&& final(self).entries()[k].program.code@ == code@
                        &&& final(self).entries()[k].program.kind == ProgramKind::Compute
                        &&& final(self).entries()[k].program.id >= old(self).next_program_id()
                    } else {
                        final(self).entries()[k] == old(self).entries()[k]
                    }),
            compiled matches Ok(code) && (forall|k: PipelineKey|
                #[trigger] old(self).entries().contains_key(k)
                    ==> old(self).entries()[k].config.shader_path@ != path@)
                ==> *final(self) == *old(self),
    {
        let code = match compiled {
            Err(e) => {
                return Err(e);
            },
            Ok(code) => code,
        };
        let ghost orig = *self;
        let keys = table_keys(&self.table);
        let mut i: usize = 0;
        while i < keys.len()
            invariant
                i <= keys.len(),
                self.count == orig.count,
                self.count as nat == table_len(self.table),
                orig.next_id <= self.next_id <= orig.next_id + i,
                self.entries().dom() == orig.entries().dom(),
                forall|k: PipelineKey| #[trigger] self.entries().contains_key(k)
                    ==> self.entries()[k].program.id < self.next_id,
                forall|k: PipelineKey| #[trigger] orig.entries().contains_key(k)
                    ==> if keys@.take(i as int).contains(k)
                            && orig.entries()[k].config.shader_path@ == path@ {
                        &&& self.entries()[k].config == orig.entries()[k].config
                        &&& self.entries()[k].program.code@ == code@
                        &&& self.entries()[k].program.kind == ProgramKind::Compute
                        &&& orig.next_id <= self.entries()[k].program.id
                    } else {
                        self.entries()[k] == orig.entries()[k]
                    },
                (forall|k: PipelineKey| #[trigger] orig.entries().contains_key(k)
                    ==> orig.entries()[k].config.shader_path@ != path@) ==> *self == orig,
            decreases keys.len() - i,
        {
            let k = keys[i];
            proof {
                assert(orig.entries().contains_key(k));
                assert(!keys@.take(i as int).contains(k)) by {
                    if keys@.take(i as int).contains(k) {
                        let j = choose|j: int| 0 <= j < i && keys@.take(i as int)[j] == k;
                        assert(keys@[j] == keys@[i as int]);
                    }
                };
            }
            match table_get(&self.table, k) {
                None => {},
                Some(entry) => {
                    if entry.config.shader_path == *path {
                        let fresh = PipelineEntry {
                            config: entry.config,
                            program: CompiledProgram {
                                id: self.next_id,
                                kind: ProgramKind::Compute,
                                code: copy_words(&code),
                            },
                        };
                        let _ = table_set(&mut self.table, k, fresh);
                        self.next_id = self.next_id + 1;
                    }
                },
            }
            i = i + 1;
            proof {
                let io = i as int - 1;
                assert(self.entries().dom() =~= orig.entries().dom());
                assert(keys@.take(i as int).contains(k)) by {
                    assert(keys@.take(i as int)[io] == k);
                };
                assert forall|k2: PipelineKey| #[trigger] orig.entries().contains_key(k2)
                    implies if keys@.take(i as int).contains(k2)
                            && orig.entries()[k2].config.shader_path@ == path@ {
                        &&& self.entries()[k2].config == orig.entries()[k2].config
                        &&& self.entries()[k2].program.code@ == code@
                        &&& self.entries()[k2].program.kind == ProgramKind::Compute
                        &&& orig.next_id <= self.entries()[k2].program.id
                    } else {
                        self.entries()[k2] == orig.entries()[k2]
                    } by {
                    if keys@.take(i as int).contains(k2) {
                        let j = choose|j: int| 0 <= j < i && keys@.take(i as int)[j] == k2;
                        if j < io {
                            assert(keys@.take(io).contains(k2)) by {
                                assert(keys@.take(io)[j] == k2);
                            };
                        } else {
                            assert(k2 == k);
                        }
                    } else {
                        assert(!keys@.take(io).contains(k2)) by {
                            if keys@.take(io).contains(k2) {
                                let j = choose|j: int| 0 <= j < io && keys@.take(io)[j] == k2;
                                assert(keys@.take(i as int)[j] == k2);
                            }
                        };
                    }
                };
            }
        }
        proof {
            assert(keys@.take(keys@.len() as int) =~= keys@);
            assert forall|k: PipelineKey| #[trigger] orig.entries().contains_key(k)
                implies keys@.take(keys@.len() as int).contains(k) by {
                assert(keys@.contains(k));
            };
        }
        Ok(())
    }

    /// The program currently compiled for a handle: None exactly when the
    /// handle was never handed out by this store.
    pub fn get(&self, key: PipelineKey) -> (r: Option<CompiledProgram>)
        ensures
            r == if self.entries().contains_key(key) {
                Some(self.entries()[key].program)
            } else {
                None::<CompiledProgram>
            },
    {
        match table_get(&self.table, key) {
            Some(entry) => Some(entry.program),
            None => None,
        }
    }
}

} // verus!
