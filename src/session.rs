use crate::router::{CallbackRouter, Callbacks};
use crate::text::str_eq;
use vstd::prelude::*;
use vstd::utf8::{decode_utf8, valid_utf8};

verus! {

/// The one ABI version this host speaks.
pub const RETRO_API_VERSION: u32 = 1;

/// The number of entry points a core must export.
pub const REQUIRED_SYMBOL_COUNT: usize = 17;

/// Failures of loading, driving or saving a core.
#[derive(Debug, Clone, PartialEq, Eq)]
pub enum LibretroError {
    /// The platform loader refused the library; its message.
    LoadLibrary(String),
    ApiVersion { expected: u32, actual: u32 },
    /// The library lacks this required entry point.
    MissingSymbol(String),
    LoadGame,
    Serialize,
    Unserialize,
    NoFrame,
    /// Core metadata that is not valid UTF-8.
    Utf8,
}

/// What a core reports about itself.
#[derive(Debug, Clone)]
pub struct SystemInfo {
    pub library_name: String,
    pub library_version: String,
    pub valid_extensions: String,
    pub need_fullpath: bool,
    pub block_extract: bool,
}

pub open spec fn spec_required_symbol(i: int) -> Seq<char> {
    if i == 0 {
        "retro_init"@
    } else if i == 1 {
        "retro_deinit"@
    } else if i == 2 {
        "retro_api_version"@
    } else if i == 3 {
        "retro_get_system_info"@
    } else if i == 4 {
        "retro_get_system_av_info"@
    } else if i == 5 {
        "retro_set_environment"@
    } else if i == 6 {
        "retro_set_video_refresh"@
    } else if i == 7 {
        "retro_set_audio_sample"@
    } else if i == 8 {
        "retro_set_audio_sample_batch"@
    } else if i == 9 {
        "retro_set_input_poll"@
    } else if i == 10 {
        "retro_set_input_state"@
    } else if i == 11 {
        "retro_load_game"@
    } else if i == 12 {
        "retro_unload_game"@
    } else if i == 13 {
        "retro_run"@
    } else if i == 14 {
        "retro_serialize_size"@
    } else if i == 15 {
        "retro_serialize"@
    } else {
        "retro_unserialize"@
    }
}

/// The name of the `i`-th required entry point, in resolution order.
pub fn required_symbol(i: usize) -> (r: &'static str)
    requires
        i < REQUIRED_SYMBOL_COUNT,
    ensures
        r@ == spec_required_symbol(i as int),
{
    match i {
        0 => "retro_init",
        1 => "retro_deinit",
        2 => "retro_api_version",
        3 => "retro_get_system_info",
        4 => "retro_get_system_av_info",
        5 => "retro_set_environment",
        6 => "retro_set_video_refresh",
        7 => "retro_set_audio_sample",
        8 => "retro_set_audio_sample_batch",
        9 => "retro_set_input_poll",
        10 => "retro_set_input_state",
        11 => "retro_load_game",
        12 => "retro_unload_game",
        13 => "retro_run",
        14 => "retro_serialize_size",
        15 => "retro_serialize",
        _ => "retro_unserialize",
    }
}

/// Decides the symbol table: `found[i]` tells whether the `i`-th required
/// entry point resolved. The first one missing, in resolution order, is
/// named in the error.
pub fn resolve_symbols(found: &[bool]) -> (r: Result<(), LibretroError>)
    requires
        found@.len() == REQUIRED_SYMBOL_COUNT,
    ensures
        r is Ok <==> forall|i: int| 0 <= i < found@.len() ==> found@[i],
        r matches Err(e) ==> exists|i: int|
            0 <= i < found@.len() && !found@[i] && (forall|j: int| 0 <= j < i ==> found@[j])
                && (e matches LibretroError::MissingSymbol(n) && n@ == spec_required_symbol(i)),
{
    let mut i: usize = 0;
    while i < found.len()
        invariant
            found@.len() == REQUIRED_SYMBOL_COUNT,
            i <= found@.len(),
            forall|j: int| 0 <= j < i ==> found@[j],
        decreases found@.len() - i,
    {
        if !found[i] {
            let name = required_symbol(i).to_owned();
            return Err(LibretroError::MissingSymbol(name));
        }
        i = i + 1;
    }
    Ok(())
}

/// The version a library reports must equal the host's exactly.
pub fn check_api_version(actual: u32) -> (r: Result<(), LibretroError>)
    ensures
        actual == RETRO_API_VERSION ==> r is Ok,
        actual != RETRO_API_VERSION ==> r == Err::<(), LibretroError>(
            LibretroError::ApiVersion { expected: RETRO_API_VERSION, actual },
        ),
{
    if actual != RETRO_API_VERSION {
        Err(LibretroError::ApiVersion { expected: RETRO_API_VERSION, actual })
    } else {
        Ok(())
    }
}

/// Relies on std::str::from_utf8: it accepts exactly the valid UTF-8 byte
/// strings and then yields their characters.
#[verifier::external_body]
fn utf8_to_string(bytes: &[u8]) -> (r: Option<String>)
    ensures
        r is Some <==> valid_utf8(bytes@),
        r matches Some(s) ==> s@ == decode_utf8(bytes@),
{
    std::str::from_utf8(bytes).ok().map(|s| s.to_owned())
}

/// Builds a core's metadata from the raw strings it reported; any string that
/// is not valid UTF-8 fails the whole record.
pub fn decode_system_info(
    library_name: &[u8],
    library_version: &[u8],
    valid_extensions: &[u8],
    need_fullpath: bool,
    block_extract: bool,
) -> (r: Result<SystemInfo, LibretroError>)
    ensures
        r is Ok <==> valid_utf8(library_name@) && valid_utf8(library_version@) && valid_utf8(
            valid_extensions@,
        ),
        r is Err ==> r == Err::<SystemInfo, LibretroError>(LibretroError::Utf8),
        r matches Ok(info) ==> {
            &&& info.library_name@ == decode_utf8(library_name@)
            &&& info.library_version@ == decode_utf8(library_version@)
            &&& info.valid_extensions@ == decode_utf8(valid_extensions@)
            &&& info.need_fullpath == need_fullpath
            &&& info.block_extract == block_extract
        },
{
    let name = match utf8_to_string(library_name) {
        Some(s) => s,
        None => return Err(LibretroError::Utf8),
    };
    let version = match utf8_to_string(library_version) {
        Some(s) => s,
        None => return Err(LibretroError::Utf8),
    };
    let extensions = match utf8_to_string(valid_extensions) {
        Some(s) => s,
        None => return Err(LibretroError::Utf8),
    };
    Ok(
        SystemInfo {
            library_name: name,
            library_version: version,
            valid_extensions: extensions,
            need_fullpath,
            block_extract,
        },
    )
}

/// A zero-filled buffer of exactly the size the core asked for.
pub fn state_buffer(size: usize) -> (r: Vec<u8>)
    ensures
        r@ == Seq::new(size as nat, |i: int| 0u8),
{
    let r: Vec<u8> = vec![0u8; size];
    assert(r@ =~= Seq::new(size as nat, |i: int| 0u8));
    r
}

/// The result of a serialize call: the filled buffer when the core reported
/// success, else a serialize failure (never an empty buffer).
pub fn serialize_outcome(ok: bool, buffer: Vec<u8>) -> (r: Result<Vec<u8>, LibretroError>)
    ensures
        ok ==> (r matches Ok(b) && b@ == buffer@),
        !ok ==> r == Err::<Vec<u8>, LibretroError>(LibretroError::Serialize),
{
    if ok {
        Ok(buffer)
    } else {
        Err(LibretroError::Serialize)
    }
}

/// The result of an unserialize call.
pub fn unserialize_outcome(ok: bool) -> (r: Result<(), LibretroError>)
    ensures
        ok ==> r is Ok,
        !ok ==> r == Err::<(), LibretroError>(LibretroError::Unserialize),
{
    if ok {
        Ok(())
    } else {
        Err(LibretroError::Unserialize)
    }
}

/// Why a saved state may not be restored into a running core.
#[derive(Debug, Clone, PartialEq, Eq)]
pub enum ProvenanceError {
    CoreMismatch { expected: String, found: String },
    VersionMismatch { expected: String, found: String },
}

/// Gate before a restore: the running core's name and version must equal,
/// exactly, those recorded with the saved state.
pub fn check_provenance(info: &SystemInfo, core_id: &str, core_version: &str) -> (r: Result<
    (),
    ProvenanceError,
>)
    ensures
        r is Ok <==> info.library_name@ == core_id@ && info.library_version@ == core_version@,
        info.library_name@ != core_id@ ==> (r matches Err(
            ProvenanceError::CoreMismatch { expected, found },
        ) && expected@ == core_id@ && found@ == info.library_name@),
        info.library_name@ == core_id@ && info.library_version@ != core_version@ ==> (r matches Err(
            ProvenanceError::VersionMismatch { expected, found },
        ) && expected@ == core_version@ && found@ == info.library_version@),
{
    if !str_eq(info.library_name.as_str(), core_id) {
        return Err(
            ProvenanceError::CoreMismatch {
                expected: core_id.to_owned(),
                found: info.library_name.clone(),
            },
        );
    }
    if !str_eq(info.library_version.as_str(), core_version) {
        return Err(
            ProvenanceError::VersionMismatch {
                expected: core_version.to_owned(),
                found: info.library_version.clone(),
            },
        );
    }
    Ok(())
}


/// Where a session stands in its lifecycle.
#[derive(Debug, Clone, Copy, PartialEq, Eq, Structural)]
pub enum Phase {
    Unloaded,
    Initialized,
    GameLoaded,
}

/// One native call or release that tearing a session down takes, in the
/// order they must happen.
#[derive(Debug, Clone, Copy, PartialEq, Eq, Structural)]
pub enum TeardownStep {
    UnloadGame,
    Deinit,
    Unregister,
    ReleaseLibrary,
}

pub open spec fn step_rank(s: TeardownStep) -> int {
    match s {
        TeardownStep::UnloadGame => 0,
        TeardownStep::Deinit => 1,
        TeardownStep::Unregister => 2,
        TeardownStep::ReleaseLibrary => 3,
    }
}

/// The lifecycle of one loaded core: which native resources it holds. The
/// host performs each native call and reports it here; this record decides
/// what is allowed next and in what order teardown runs.
#[derive(Debug)]
pub struct Session {
    id: u64,
    library_held: bool,
    registered: bool,
    initialized: bool,
    game_loaded: bool,
    info: Option<SystemInfo>,
}

impl Session {
    pub closed spec fn spec_id(&self) -> u64 {
        self.id
    }

    pub closed spec fn holds_library(&self) -> bool {
        self.library_held
    }

    pub closed spec fn is_registered(&self) -> bool {
        self.registered
    }

    pub closed spec fn is_initialized(&self) -> bool {
        self.initialized
    }

    pub closed spec fn has_game(&self) -> bool {
        self.game_loaded
    }

    pub closed spec fn spec_info(&self) -> Option<SystemInfo> {
        self.info
    }

    /// Each resource is taken only while the one before it is held: library,
    /// then registration, then init, then a game.
    pub open spec fn wf(&self) -> bool {
        &&& self.has_game() ==> self.is_initialized()
        &&& self.is_initialized() ==> self.is_registered()
        &&& self.is_registered() ==> self.holds_library()
    }

    pub open spec fn spec_phase(&self) -> Phase {
        if self.has_game() {
            Phase::GameLoaded
        } else if self.is_initialized() {
            Phase::Initialized
        } else {
            Phase::Unloaded
        }
    }

    /// The step teardown takes next from this state, if any.
    pub open spec fn spec_next_step(&self) -> Option<TeardownStep> {
        if self.has_game() {
            Some(TeardownStep::UnloadGame)
        } else if self.is_initialized() {
            Some(TeardownStep::Deinit)
        } else if self.is_registered() {
            Some(TeardownStep::Unregister)
        } else if self.holds_library() {
            Some(TeardownStep::ReleaseLibrary)
        } else {
            None
        }
    }

    /// The session once the host has performed `step`.
    pub closed spec fn after_step(self, step: TeardownStep) -> Session {
        match step {
            TeardownStep::UnloadGame => Session { game_loaded: false, ..self },
            TeardownStep::Deinit => Session { initialized: false, ..self },
            TeardownStep::Unregister => Session { registered: false, ..self },
            TeardownStep::ReleaseLibrary => Session { library_held: false, ..self },
        }
    }

    /// Every step that tearing this session down takes, in order.
    pub open spec fn teardown_plan(self) -> Seq<TeardownStep> {
        (if self.has_game() {
            seq![TeardownStep::UnloadGame]
        } else {
            Seq::empty()
        }) + (if self.is_initialized() {
            seq![TeardownStep::Deinit]
        } else {
            Seq::empty()
        }) + (if self.is_registered() {
            seq![TeardownStep::Unregister]
        } else {
            Seq::empty()
        }) + (if self.holds_library() {
            seq![TeardownStep::ReleaseLibrary]
        } else {
            Seq::empty()
        })
    }

    /// Teardown of a well-formed session proceeds through its plan: the next
    /// step is the plan's first, and what remains afterwards is the rest.
    pub proof fn law_teardown_follows_plan(self, step: TeardownStep)
        requires
            self.wf(),
            self.spec_next_step() == Some(step),
        ensures
            self.after_step(step).wf(),
            self.teardown_plan() == seq![step] + self.after_step(step).teardown_plan(),
            self.after_step(step).spec_id() == self.spec_id(),
    {
        let n = self.after_step(step);
        assert(self.teardown_plan() =~= seq![step] + n.teardown_plan());
    }

    /// The teardown plan of a well-formed session is strictly ordered: game
    /// unload, then deinit, then leaving the router, then releasing the
    /// library. In particular the session is still registered whenever deinit
    /// runs, so callbacks made during deinit still reach it.
    pub proof fn law_teardown_order(self)
        requires
            self.wf(),
        ensures
            forall|i: int, j: int|
                #![trigger self.teardown_plan()[i], self.teardown_plan()[j]]
                0 <= i < j < self.teardown_plan().len() ==> step_rank(self.teardown_plan()[i])
                    < step_rank(self.teardown_plan()[j]),
            self.spec_next_step() == Some(TeardownStep::Deinit) ==> self.is_registered()
                && self.holds_library(),
            self.spec_next_step() is None <==> self.teardown_plan().len() == 0,
    {
        let p = self.teardown_plan();
        assert forall|i: int, j: int|
            #![trigger p[i], p[j]]
            0 <= i < j < p.len() implies step_rank(p[i]) < step_rank(p[j]) by {
            let a = if self.has_game() { 1int } else { 0int };
            let b = a + if self.is_initialized() { 1int } else { 0int };
            let c = b + if self.is_registered() { 1int } else { 0int };
            assert(forall|k: int| 0 <= k < p.len() ==> step_rank(#[trigger] p[k]) == if k < a {
                0int
            } else if k < b {
                1int
            } else if k < c {
                2int
            } else {
                3int
            });
        }
    }

    /// A session that holds nothing yet.
    pub fn new(id: u64) -> (r: Session)
        ensures
            r.spec_id() == id,
            r.wf(),
            !r.holds_library(),
            !r.is_registered(),
            !r.is_initialized(),
            !r.has_game(),
            r.spec_info() is None,
    {
        Session {
            id,
            library_held: false,
            registered: false,
            initialized: false,
            game_loaded: false,
            info: None,
        }
    }

    pub fn id(&self) -> (r: u64)
        ensures
            r == self.spec_id(),
    {
        self.id
    }

    pub fn phase(&self) -> (r: Phase)
        ensures
            r == self.spec_phase(),
    {
        if self.game_loaded {
            Phase::GameLoaded
        } else if self.initialized {
            Phase::Initialized
        } else {
            Phase::Unloaded
        }
    }

    pub fn system_info(&self) -> (r: Option<&SystemInfo>)
        ensures
            r == match self.spec_info() {
                Some(i) => Some(&i),
                None => None::<&SystemInfo>,
            },
    {
        match &self.info {
            Some(i) => Some(i),
            None => None,
        }
    }

    /// Records the loader's outcome; the platform's message becomes a
    /// load-library error.
    pub fn library_opened(&mut self, outcome: Result<(), String>) -> (r: Result<(), LibretroError>)
        requires
            !old(self).holds_library(),
            old(self).wf(),
        ensures
            final(self).wf(),
            final(self).spec_id() == old(self).spec_id(),
            final(self).holds_library() == outcome is Ok,
            !final(self).is_registered(),
            final(self).is_registered() == old(self).is_registered(),
            final(self).is_initialized() == old(self).is_initialized(),
            final(self).has_game() == old(self).has_game(),
            final(self).spec_info() == old(self).spec_info(),
            outcome is Ok ==> r is Ok,
            outcome matches Err(m) ==> (r matches Err(LibretroError::LoadLibrary(m2)) && m2@ == m@),
    {
        match outcome {
            Ok(()) => {
                self.library_held = true;
                Ok(())
            },
            Err(m) => Err(LibretroError::LoadLibrary(m)),
        }
    }

    /// Installs this session's callback set in the router. The router must
    /// not hold another session's set: the previous session is torn down
    /// first.
    pub fn register(&mut self, router: &mut CallbackRouter, callbacks: Callbacks)
        requires
            old(self).holds_library(),
            !old(self).is_registered(),
            old(self).wf(),
            old(router).spec_active() is None,
            callbacks.wf(),
        ensures
            final(self).wf(),
            final(self).spec_id() == old(self).spec_id(),
            final(self).is_registered(),
            final(self).holds_library(),
            !final(self).is_initialized(),
            !final(self).has_game(),
            final(self).spec_info() == old(self).spec_info(),
            final(router).active_session() == Some(old(self).spec_id()),
            final(router).spec_active()->0.callbacks == callbacks,
            final(router).wf(),
    {
        let _ = router.register(self.id, callbacks);
        self.registered = true;
    }

    /// Records that the core's init ran and what it reported about itself.
    /// A metadata failure is handed back; the session then still holds the
    /// initialized core and must be torn down.
    pub fn initialized(&mut self, info: Result<SystemInfo, LibretroError>) -> (r: Result<
        (),
        LibretroError,
    >)
        requires
            old(self).is_registered(),
            !old(self).is_initialized(),
            old(self).wf(),
        ensures
            final(self).wf(),
            final(self).spec_id() == old(self).spec_id(),
            final(self).is_initialized(),
            final(self).is_registered(),
            final(self).holds_library(),
            !final(self).has_game(),
            r is Ok <==> info is Ok,
            info matches Ok(i) ==> final(self).spec_info() == Some(i),
            info matches Err(e) ==> r == Err::<(), LibretroError>(e) && final(self).spec_info()
                == old(self).spec_info(),
    {
        self.initialized = true;
        match info {
            Ok(i) => {
                self.info = Some(i);
                Ok(())
            },
            Err(e) => Err(e),
        }
    }

    /// Records whether the core accepted the game. A refusal leaves the
    /// session initialized, without a game.
    pub fn game_load_finished(&mut self, accepted: bool) -> (r: Result<(), LibretroError>)
        requires
            old(self).is_initialized(),
            !old(self).has_game(),
            old(self).wf(),
        ensures
            final(self).wf(),
            final(self).spec_id() == old(self).spec_id(),
            final(self).has_game() == accepted,
            final(self).is_initialized(),
            final(self).is_registered(),
            final(self).holds_library(),
            final(self).spec_info() == old(self).spec_info(),
            accepted ==> r is Ok,
            !accepted ==> r == Err::<(), LibretroError>(LibretroError::LoadGame),
    {
        if accepted {
            self.game_loaded = true;
            Ok(())
        } else {
            Err(LibretroError::LoadGame)
        }
    }

    /// Detaches the game, if one is loaded; true when the native unload call
    /// is due.
    pub fn unload_game(&mut self) -> (r: bool)
        requires
            old(self).wf(),
        ensures
            final(self).wf(),
            r == old(self).has_game(),
            !final(self).has_game(),
            final(self).spec_id() == old(self).spec_id(),
            final(self).is_initialized() == old(self).is_initialized(),
            final(self).is_registered() == old(self).is_registered(),
            final(self).holds_library() == old(self).holds_library(),
            final(self).spec_info() == old(self).spec_info(),
    {
        let was = self.game_loaded;
        self.game_loaded = false;
        was
    }

    /// The next teardown step: unload the game, deinit the core, leave the
    /// router, release the library; each only if still held.
    pub fn next_teardown_step(&self) -> (r: Option<TeardownStep>)
        ensures
            r == self.spec_next_step(),
    {
        if self.game_loaded {
            Some(TeardownStep::UnloadGame)
        } else if self.initialized {
            Some(TeardownStep::Deinit)
        } else if self.registered {
            Some(TeardownStep::Unregister)
        } else if self.library_held {
            Some(TeardownStep::ReleaseLibrary)
        } else {
            None
        }
    }

    /// Records that the host performed `step`; leaving the router happens
    /// here, and only removes this session's own registration.
    pub fn teardown_step_done(&mut self, step: TeardownStep, router: &mut CallbackRouter) -> (r:
        Option<Callbacks>)
        requires
            old(self).wf(),
            old(router).wf(),
            old(self).spec_next_step() == Some(step),
        ensures
            final(self).wf(),
            final(self).spec_id() == old(self).spec_id(),
            final(router).wf(),
            final(self).spec_info() == old(self).spec_info(),
            *final(self) == old(self).after_step(step),
            final(self).spec_next_step() is None || step_rank(step) < step_rank(
                final(self).spec_next_step()->0,
            ),
            step == TeardownStep::UnloadGame ==> !final(self).has_game() && final(self).is_initialized() && *final(router) == *old(router),
            step == TeardownStep::Deinit ==> !final(self).is_initialized() && final(self).is_registered() && *final(router) == *old(router),
            step == TeardownStep::Unregister ==> {
                &&& !final(self).is_registered()
                &&& final(self).holds_library()
                &&& old(router).active_session() == Some(old(self).spec_id()) ==> final(router).spec_active() is None
                &&& old(router).active_session() != Some(old(self).spec_id()) ==> final(router).spec_active() == old(router).spec_active()
            },
            step == TeardownStep::ReleaseLibrary ==> !final(self).holds_library() && *final(router) == *old(router),
            step != TeardownStep::Unregister ==> r is None,
    {
        match step {
            TeardownStep::UnloadGame => {
                self.game_loaded = false;
                None
            },
            TeardownStep::Deinit => {
                self.initialized = false;
                None
            },
            TeardownStep::Unregister => {
                self.registered = false;
                router.unregister(self.id)
            },
            TeardownStep::ReleaseLibrary => {
                self.library_held = false;
                None
            },
        }
    }
}

} // verus!
