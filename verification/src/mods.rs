//! A mod: what its descriptor says of it, where it lies, and how it is run.

use vstd::prelude::*;
use vstd::string::StringExecFns;
use crate::descriptor::{parsed_descriptor, Descriptor, DescriptorView};
use crate::error::{Field, LoadError, LoadFailure, RunError, RunStage};
use crate::host::{
    saw_host_state, HostState, RunReport, ENTRY_POINT, HOST_FUNC, HOST_NAMESPACE,
};
use crate::run::{
    called, compiled, engine_made, entry_came_back, export_found, instantiated, linked, reached,
};
use crate::wasm::{
    call_export, compile, define_host_func, engine_error_text, instantiate, new_engine,
    new_linker, new_store, typed_export,
};

verus! {

/// The mathematical value of a `Mod`.
pub struct ModView {
    pub name: Seq<char>,
    pub description: Seq<char>,
    pub version: Seq<char>,
    pub path: Seq<char>,
    pub debug_name: Seq<char>,
    pub wat_source_path: Seq<char>,
}

impl ModView {
    /// What holds of every mod: its debug name is made of its name and its
    /// version, and its module source lies under its path.
    pub open spec fn well_formed(self) -> bool {
        &&& self.debug_name == debug_name_of(self.name, self.version)
        &&& self.path.is_prefix_of(self.wat_source_path)
    }
}

/// The directory of a mod: the executable's directory, a slash, and the mod's
/// relative path, joined as they are.
pub open spec fn mod_path(executable_dir: Seq<char>, relative_path: Seq<char>) -> Seq<char> {
    executable_dir + "/"@ + relative_path
}

/// The place of a mod's descriptor file: `package.yaml` in the mod's
/// directory.
pub open spec fn descriptor_path_of(path: Seq<char>) -> Seq<char> {
    path + "/package.yaml"@
}

/// The name under which a mod is reported: its name, `" v"`, its version.
pub open spec fn debug_name_of(name: Seq<char>, version: Seq<char>) -> Seq<char> {
    name + " v"@ + version
}

/// The place of a mod's module source: the descriptor's `run` value appended
/// to the mod's directory as it is, with no separator put in or taken out.
pub open spec fn source_path_of(path: Seq<char>, run: Seq<char>) -> Seq<char> {
    path + run
}

/// The mod that a descriptor describes, for the mod directory `path`.
///
/// All five keys must be there; the first that is not is reported. A complete
/// descriptor with `precompiled: false` is refused as unsupported.
pub open spec fn assembled(path: Seq<char>, d: DescriptorView) -> Result<ModView, LoadFailure> {
    match d.first_missing() {
        Some(field) => Err(LoadFailure::MissingField { path, field }),
        None => if d.precompiled == Some(false) {
            Err(LoadFailure::Unsupported)
        } else {
            Ok(
                ModView {
                    name: d.name->0,
                    description: d.description->0,
                    version: d.version->0,
                    path,
                    debug_name: debug_name_of(d.name->0, d.version->0),
                    wat_source_path: source_path_of(path, d.run->0),
                },
            )
        },
    }
}

/// What reading a file gave, as mathematical values: the bytes, or the reason
/// why there are none.
pub open spec fn file_view(file: Result<Vec<u8>, String>) -> Result<Seq<u8>, Seq<char>> {
    match file {
        Ok(bytes) => Ok(bytes@),
        Err(detail) => Err(detail@),
    }
}

/// The outcome of loading the mod at `relative_path` below `executable_dir`,
/// given what reading its descriptor file gave.
///
/// A file that could not be read is reported with the reason, bytes that are
/// no YAML document with the parser's complaint; a document is judged by the
/// descriptor that it amounts to.
pub open spec fn loaded(
    executable_dir: Seq<char>,
    relative_path: Seq<char>,
    descriptor: Result<Seq<u8>, Seq<char>>,
) -> Result<ModView, LoadFailure> {
    let path = mod_path(executable_dir, relative_path);
    match descriptor {
        Err(detail) => Err(LoadFailure::Unreadable { path, detail }),
        Ok(bytes) => match parsed_descriptor(path, bytes) {
            Ok(d) => assembled(path, d),
            Err(e) => Err(e),
        },
    }
}

/// One loadable unit: a name, a description and a version out of its
/// descriptor, and the places of its directory and of its module source.
#[derive(Debug)]
pub struct Mod {
    name: String,
    description: String,
    version: String,
    path: String,
    debug_name: String,
    wat_source_path: String,
}

impl View for Mod {
    type V = ModView;

    closed spec fn view(&self) -> ModView {
        ModView {
            name: self.name@,
            description: self.description@,
            version: self.version@,
            path: self.path@,
            debug_name: self.debug_name@,
            wat_source_path: self.wat_source_path@,
        }
    }
}

/// Joins the executable's directory and a mod's relative path into the mod's
/// directory.
pub fn resolve_path(executable_dir: &str, relative_path: &str) -> (r: String)
    ensures
        r@ == mod_path(executable_dir@, relative_path@),
{
    let mut path = String::from_str(executable_dir);
    path.append("/");
    path.append(relative_path);
    path
}

/// The place of the descriptor file of the mod whose directory is `path`.
pub fn descriptor_path(path: &str) -> (r: String)
    ensures
        r@ == descriptor_path_of(path@),
{
    let mut file = String::from_str(path);
    file.append("/package.yaml");
    file
}

impl Mod {
    #[verifier::type_invariant]
    spec fn inv(self) -> bool {
        self@.well_formed()
    }

    /// Loads the mod at `relative_path` below `executable_dir`. `descriptor`
    /// is what reading the file at `descriptor_path` gave: its bytes, or the
    /// reason why it could not be read.
    pub fn new(executable_dir: &str, relative_path: String, descriptor: Result<Vec<u8>, String>) -> (r:
        Result<Mod, LoadError>)
        ensures
            match r {
                Ok(m) => loaded(executable_dir@, relative_path@, file_view(descriptor)) == Ok::<
                    ModView,
                    LoadFailure,
                >(m@),
                Err(e) => loaded(executable_dir@, relative_path@, file_view(descriptor)) == Err::<
                    ModView,
                    LoadFailure,
                >(e@),
            },
            r matches Ok(m) ==> m@.well_formed(),
    {
        let path = resolve_path(executable_dir, relative_path.as_str());
        let bytes = match descriptor {
            Ok(bytes) => bytes,
            Err(detail) => {
                return Err(LoadError::Unreadable { path, detail });
            },
        };
        match Descriptor::parse(path.as_str(), bytes.as_slice()) {
            Ok(d) => Mod::from_descriptor(path, d),
            Err(e) => Err(e),
        }
    }

    /// Makes the mod that a descriptor describes, for the mod directory
    /// `path`, or says what the descriptor lacks.
    pub fn from_descriptor(path: String, descriptor: Descriptor) -> (r: Result<Mod, LoadError>)
        ensures
            match r {
                Ok(m) => assembled(path@, descriptor@) == Ok::<ModView, LoadFailure>(m@),
                Err(e) => assembled(path@, descriptor@) == Err::<ModView, LoadFailure>(e@),
            },
            r matches Ok(m) ==> m@.well_formed(),
    {
        let name = match descriptor.name {
            Some(name) => name,
            None => {
                return Err(LoadError::MissingField { path, field: Field::Name });
            },
        };
        let description = match descriptor.description {
            Some(description) => description,
            None => {
                return Err(LoadError::MissingField { path, field: Field::Description });
            },
        };
        let version = match descriptor.version {
            Some(version) => version,
            None => {
                return Err(LoadError::MissingField { path, field: Field::Version });
            },
        };
        let precompiled = match descriptor.precompiled {
            Some(precompiled) => precompiled,
            None => {
                return Err(LoadError::MissingField { path, field: Field::Precompiled });
            },
        };
        let run = match descriptor.run {
            Some(run) => run,
            None => {
                return Err(LoadError::MissingField { path, field: Field::Run });
            },
        };
        if !precompiled {
            return Err(LoadError::Unsupported);
        }
        let mut debug_name = String::from_str(name.as_str());
        debug_name.append(" v");
        debug_name.append(version.as_str());
        let mut wat_source_path = String::from_str(path.as_str());
        wat_source_path.append(run.as_str());
        Ok(Mod { name, description, version, path, debug_name, wat_source_path })
    }

    /// Runs the mod once. `source` is what reading the file at
    /// `wat_source_path` gave: the module's text, or the reason why it could
    /// not be read.
    ///
    /// The text is compiled by a fresh engine with the default configuration.
    /// One host function is linked in, `host_func` in the namespace `host`,
    /// which takes one `i32` and notes each call together with the host state.
    /// The module is instantiated in a store that carries that state, and its
    /// export `hello`, which takes and returns nothing, is called once. The
    /// run stops at the first step that fails; what each step's answer leads
    /// to is stated by the functions of `run`.
    ///
    /// The engine decides which step fails for a given module, so the report
    /// says what holds of every run. An unreadable source is reported as such
    /// and as nothing else. A success is that of one call of the entry point
    /// that came back, with the calls that the store then held. A failure
    /// at a step has the steps before it behind it and, from the set-up of
    /// the engine on, carries the engine's own words. Every call that the
    /// host function received saw the host state.
    pub fn init(&self, source: Result<String, String>) -> (r: RunReport)
        ensures
            saw_host_state(r.calls@),
            source matches Err(detail) ==> r.outcome == Err::<(), RunError>(
                RunError { stage: RunStage::Source, detail },
            ),
            source is Ok ==> !(r.outcome matches Err(e) && e.stage == RunStage::Source),
            r.outcome is Ok ==> entry_came_back(r.calls@),
            r.outcome matches Err(e) ==> reached(e.stage, r.calls@),
            r.outcome matches Err(e) ==> e.stage == RunStage::Source || exists|
                error: wasmtime::Error,
            |
                e.detail@ == #[trigger] engine_error_text(error),
    {
        let wat = match source {
            Ok(wat) => wat,
            Err(detail) => {
                return RunReport::stopped(RunStage::Source, detail);
            },
        };
        let engine = match engine_made(new_engine()) {
            Ok(engine) => engine,
            Err(report) => {
                return report;
            },
        };
        let module = match compiled(compile(&engine, wat.as_str())) {
            Ok(module) => module,
            Err(report) => {
                return report;
            },
        };
        let mut linker = new_linker(&engine);
        match linked(define_host_func(&mut linker, HOST_NAMESPACE, HOST_FUNC)) {
            Ok(()) => {},
            Err(report) => {
                return report;
            },
        }
        let mut store = new_store(&engine, HostState::new());
        let instantiating = instantiate(&linker, &mut store, &module);
        let instance = match instantiated(&store, instantiating) {
            Ok(instance) => instance,
            Err(report) => {
                return report;
            },
        };
        let finding = typed_export(&instance, &mut store, ENTRY_POINT);
        let hello = match export_found(&store, finding) {
            Ok(hello) => hello,
            Err(report) => {
                return report;
            },
        };
        let calling = call_export(&hello, &mut store);
        called(&store, calling)
    }

    /// The mod's display name.
    pub fn name(&self) -> (r: &String)
        ensures
            r@ == self@.name,
    {
        &self.name
    }

    /// The mod's description.
    pub fn description(&self) -> (r: &String)
        ensures
            r@ == self@.description,
    {
        &self.description
    }

    /// The mod's version, as the descriptor writes it.
    pub fn version(&self) -> (r: &String)
        ensures
            r@ == self@.version,
    {
        &self.version
    }

    /// The mod's name and version in one: the name, `" v"`, the version.
    pub fn debug_name(&self) -> (r: &String)
        ensures
            r@ == self@.debug_name,
            r@ == debug_name_of(self@.name, self@.version),
    {
        proof {
            use_type_invariant(self);
        }
        &self.debug_name
    }

    /// The mod's directory.
    pub fn path(&self) -> (r: &String)
        ensures
            r@ == self@.path,
    {
        &self.path
    }

    /// The place of the mod's module source, which begins with the mod's
    /// directory.
    pub fn wat_source_path(&self) -> (r: &String)
        ensures
            r@ == self@.wat_source_path,
            self@.path.is_prefix_of(r@),
    {
        proof {
            use_type_invariant(self);
        }
        &self.wat_source_path
    }
}

/// Loading from a file whose bytes parse into a document comes to judging
/// the descriptor that the document amounts to, for the mod's directory.
pub proof fn loaded_document_is_assembled(
    executable_dir: Seq<char>,
    relative_path: Seq<char>,
    bytes: Seq<u8>,
    d: DescriptorView,
)
    requires
        parsed_descriptor(mod_path(executable_dir, relative_path), bytes) == Ok::<
            DescriptorView,
            LoadFailure,
        >(d),
    ensures
        loaded(executable_dir, relative_path, Ok(bytes)) == assembled(
            mod_path(executable_dir, relative_path),
            d,
        ),
{
}

/// A descriptor that holds all five keys and says `precompiled: true` gives
/// a mod, and the mod's debug name is its name, then `" v"`, then its
/// version, with nothing added or left out.
pub proof fn debug_name_is_name_and_version(path: Seq<char>, d: DescriptorView)
    requires
        d.first_missing() is None,
        d.precompiled == Some(true),
    ensures
        assembled(path, d) matches Ok(m) && m.name == d.name->0 && m.version == d.version->0
            && m.debug_name == d.name->0 + " v"@ + d.version->0,
{
}

/// Whatever was loaded, the debug name of a loaded mod is made of its name
/// and its version.
pub proof fn loaded_mod_is_well_formed(
    executable_dir: Seq<char>,
    relative_path: Seq<char>,
    descriptor: Result<Seq<u8>, Seq<char>>,
)
    ensures
        loaded(executable_dir, relative_path, descriptor) matches Ok(m) ==> m.well_formed()
            && m.debug_name == m.name + " v"@ + m.version && m.path == mod_path(
            executable_dir,
            relative_path,
        ),
{
}

/// The place of a mod's module source is the mod's directory with the
/// descriptor's `run` value appended as it is: no character is put between
/// the two or dropped from either, so the lengths add up and each part can
/// be read back.
pub proof fn source_path_is_path_then_run(path: Seq<char>, d: DescriptorView)
    ensures
        assembled(path, d) matches Ok(m) ==> {
            &&& m.path == path
            &&& m.wat_source_path == path + d.run->0
            &&& m.wat_source_path.len() == path.len() + (d.run->0).len()
            &&& m.wat_source_path.subrange(0, path.len() as int) == path
            &&& m.wat_source_path.subrange(path.len() as int, m.wat_source_path.len() as int)
                == d.run->0
        },
{
    if assembled(path, d) is Ok {
        let run = d.run->0;
        let whole = path + run;
        assert(whole.subrange(0, path.len() as int) =~= path);
        assert(whole.subrange(path.len() as int, whole.len() as int) =~= run);
    }
}

/// A descriptor that lacks a required key gives no mod. The failure names a
/// key that the descriptor lacks, the first such in the order name,
/// description, version, precompiled, run, so where one key alone is
/// lacking, that one; and its message holds that key between quotes.
pub proof fn missing_field_is_reported(path: Seq<char>, d: DescriptorView, field: Field)
    requires
        d.lacks(field),
    ensures
        assembled(path, d) matches Err(LoadFailure::MissingField { path: p, field: reported })
            && p == path && d.lacks(reported) && d.first_missing() == Some(reported) && ((forall|
            other: Field,
        |
            d.lacks(other) ==> other == field) ==> reported == field),
        assembled(path, d)->Err_0.message() == "The \""@ + (d.first_missing()->0).key()
            + "\" field is missing from the \"package.yaml\" file for the mod "@ + path,
{
    let reported = d.first_missing()->0;
    assert(d.first_missing() is Some);
    assert(d.lacks(reported));
}

/// A descriptor that holds all five keys and says `precompiled: false` gives
/// no mod, and the failure is the one for an unsupported mod, not one for a
/// missing field.
pub proof fn unprecompiled_is_unsupported(path: Seq<char>, d: DescriptorView)
    requires
        d.first_missing() is None,
        d.precompiled == Some(false),
    ensures
        assembled(path, d) == Err::<ModView, LoadFailure>(LoadFailure::Unsupported),
        !(assembled(path, d) matches Err(LoadFailure::MissingField { .. })),
{
}

} // verus!
