//! The module loader: resolution of import strings, and the load protocol
//! around the fetch that the host performs.

use crate::error::ErrorKind;
use crate::media::{kind_of, media_type_name, SourceKind};
use crate::specifier::{
    resolution_of, resolve_import, specifier_of, ModuleSpecifier, ResolutionError,
};
use crate::text::{is_fully_resolved, same_text, scheme_of};
use crate::transpile::{executable_source, make_executable};
use std::path::PathBuf;
use vstd::prelude::*;
use vstd::string::*;

verus! {

/// A path of the local file system. Nothing is read from it here: it is
/// carried from the URL that named it to the host that opens it.
#[verifier::external_type_specification]
#[verifier::external_body]
pub struct ExPathBuf(PathBuf);

/// Calls `url::Url::to_file_path` on the URL that `url::Url::parse` makes of
/// `href`. Which path comes back depends on the platform, so nothing is
/// claimed of the result.
#[verifier::external_body]
fn local_path(href: &str) -> (path: Option<PathBuf>) {
    match url::Url::parse(href) {
        Ok(specifier) => specifier.to_file_path().ok(),
        Err(_) => None,
    }
}

/// The module kinds that the guest runtime is handed.
#[derive(Clone, Copy, Debug, PartialEq, Eq, Structural)]
pub enum ModuleKind {
    /// Executable script.
    Script,
    /// A structured-data document.
    StructuredData,
}

/// The module kind that an import asks for.
#[derive(Clone, Copy, Debug, PartialEq, Eq, Structural)]
pub enum RequestedModuleKind {
    /// No particular kind.
    Unconstrained,
    /// A structured-data document.
    StructuredData,
    /// Any other kind, named explicitly by the import.
    Other,
}

/// Why a load produced no record.
#[derive(Debug, PartialEq, Eq)]
pub enum LoadError {
    /// The specifier's scheme is none of `http`, `https` and `file`.
    UnsupportedScheme(String),
    /// The specifier has the `file` scheme and names no local path.
    InvalidFileUrl,
    /// No response came back, or its body could not be read.
    RequestFailed,
    /// The response's status is not a success status.
    HttpStatus(u16),
    /// The file could not be read.
    ReadFailed,
    /// The transpiler refused the source; its message is kept.
    Compile(String),
    /// The classified kind of the module does not satisfy the requested kind.
    ModuleKindMismatch { requested: RequestedModuleKind, classified: SourceKind },
}

/// A load error, as contracts speak of it.
pub enum LoadErrorView {
    UnsupportedScheme(Seq<char>),
    InvalidFileUrl,
    RequestFailed,
    HttpStatus(u16),
    ReadFailed,
    Compile(Seq<char>),
    ModuleKindMismatch { requested: RequestedModuleKind, classified: SourceKind },
}

impl View for LoadError {
    type V = LoadErrorView;

    open spec fn view(&self) -> LoadErrorView {
        match self {
            LoadError::UnsupportedScheme(scheme) => LoadErrorView::UnsupportedScheme(scheme@),
            LoadError::InvalidFileUrl => LoadErrorView::InvalidFileUrl,
            LoadError::RequestFailed => LoadErrorView::RequestFailed,
            LoadError::HttpStatus(status) => LoadErrorView::HttpStatus(*status),
            LoadError::ReadFailed => LoadErrorView::ReadFailed,
            LoadError::Compile(message) => LoadErrorView::Compile(message@),
            LoadError::ModuleKindMismatch { requested, classified } => {
                LoadErrorView::ModuleKindMismatch { requested: *requested, classified: *classified }
            },
        }
    }
}

impl LoadErrorView {
    /// The stage-level kind of this error: a transpile failure and a kind
    /// mismatch are told apart from the failures of the fetch.
    pub open spec fn kind(self) -> ErrorKind {
        match self {
            LoadErrorView::Compile(_) => ErrorKind::Compile,
            LoadErrorView::ModuleKindMismatch { .. } => ErrorKind::ModuleKindMismatch,
            _ => ErrorKind::Load,
        }
    }
}

impl LoadError {
    /// The stage-level kind of this error.
    pub fn kind(&self) -> (kind: ErrorKind)
        ensures
            kind == self@.kind(),
    {
        match self {
            LoadError::Compile(_) => ErrorKind::Compile,
            LoadError::ModuleKindMismatch { .. } => ErrorKind::ModuleKindMismatch,
            _ => ErrorKind::Load,
        }
    }
}

/// How the fetch that a plan asked for ended.
#[derive(Debug, PartialEq, Eq)]
pub enum FetchOutcome {
    /// A response arrived from the network, after any redirects: its status,
    /// the URL that finally answered, and its body.
    Response { status: u16, final_url: ModuleSpecifier, body: Vec<u8> },
    /// No response arrived, or its body could not be read.
    RequestFailed,
    /// The local file was read.
    FileContents(Vec<u8>),
    /// The local file could not be read.
    ReadFailed,
}

/// A fetch outcome, as contracts speak of it.
pub enum FetchOutcomeView {
    Response { status: u16, final_url: Seq<char>, body: Seq<u8> },
    RequestFailed,
    FileContents(Seq<u8>),
    ReadFailed,
}

impl View for FetchOutcome {
    type V = FetchOutcomeView;

    open spec fn view(&self) -> FetchOutcomeView {
        match self {
            FetchOutcome::Response { status, final_url, body } => FetchOutcomeView::Response {
                status: *status,
                final_url: final_url@,
                body: body@,
            },
            FetchOutcome::RequestFailed => FetchOutcomeView::RequestFailed,
            FetchOutcome::FileContents(bytes) => FetchOutcomeView::FileContents(bytes@),
            FetchOutcome::ReadFailed => FetchOutcomeView::ReadFailed,
        }
    }
}

/// Where a module's source is to be fetched from.
#[derive(Debug, PartialEq, Eq)]
pub enum Origin {
    /// From the network, by a GET on the specifier.
    Network,
    /// From the local file at this path.
    File(PathBuf),
}

/// The fetch that the host has to perform for one load.
#[derive(Debug, PartialEq, Eq)]
pub struct FetchPlan {
    specifier: ModuleSpecifier,
    origin: Origin,
}

/// A fetch plan, as contracts speak of it.
pub struct FetchPlanView {
    pub specifier: Seq<char>,
    pub from_file: bool,
}

impl View for FetchPlan {
    type V = FetchPlanView;

    closed spec fn view(&self) -> FetchPlanView {
        FetchPlanView { specifier: self.specifier@, from_file: self.origin is File }
    }
}

impl FetchPlan {
    /// The specifier to fetch.
    pub fn specifier(&self) -> (specifier: &ModuleSpecifier)
        ensures
            specifier@ == self@.specifier,
    {
        &self.specifier
    }

    /// The local path to read, where the source lies in a file.
    pub fn file_path(&self) -> (path: Option<&PathBuf>)
        ensures
            path is Some == self@.from_file,
    {
        match &self.origin {
            Origin::File(path) => Some(path),
            Origin::Network => None,
        }
    }
}

/// One loaded module, as it is handed to the guest runtime.
///
/// A redirect target, where there is one, differs from the specifier: the
/// two are then names of one module with one source.
#[derive(Debug, PartialEq, Eq)]
pub struct LoadedModuleRecord {
    specifier: ModuleSpecifier,
    module_kind: ModuleKind,
    source_bytes: Vec<u8>,
    redirect_target: Option<ModuleSpecifier>,
}

/// A loaded module record, as contracts speak of it.
pub struct RecordView {
    pub specifier: Seq<char>,
    pub module_kind: ModuleKind,
    pub source_bytes: Seq<u8>,
    pub redirect_target: Option<Seq<char>>,
}

impl RecordView {
    /// The source that the record gives for a module name: its one source,
    /// for the specifier and for the redirect target alike.
    pub open spec fn source_of(self, name: Seq<char>) -> Option<Seq<u8>> {
        if name == self.specifier || self.redirect_target == Some(name) {
            Some(self.source_bytes)
        } else {
            None
        }
    }
}

impl View for LoadedModuleRecord {
    type V = RecordView;

    closed spec fn view(&self) -> RecordView {
        RecordView {
            specifier: self.specifier@,
            module_kind: self.module_kind,
            source_bytes: self.source_bytes@,
            redirect_target: match self.redirect_target {
                Some(target) => Some(target@),
                None => None,
            },
        }
    }
}

impl LoadedModuleRecord {
    #[verifier::type_invariant]
    spec fn redirect_differs(self) -> bool {
        self.redirect_target matches Some(target) ==> target@ != self.specifier@
    }

    /// The specifier that was asked for.
    pub fn specifier(&self) -> (specifier: &ModuleSpecifier)
        ensures
            specifier@ == self@.specifier,
    {
        &self.specifier
    }

    /// The kind of the module.
    pub fn module_kind(&self) -> (kind: ModuleKind)
        ensures
            kind == self@.module_kind,
    {
        self.module_kind
    }

    /// The executable source.
    pub fn source_bytes(&self) -> (bytes: &Vec<u8>)
        ensures
            bytes@ == self@.source_bytes,
    {
        &self.source_bytes
    }

    /// Takes the record apart: specifier, kind, source and redirect target.
    pub fn into_parts(self) -> (parts: (ModuleSpecifier, ModuleKind, Vec<u8>, Option<ModuleSpecifier>))
        ensures
            parts.0@ == self@.specifier,
            parts.1 == self@.module_kind,
            parts.2@ == self@.source_bytes,
            match parts.3 {
                Some(target) => self@.redirect_target == Some(target@) && target@ != self@.specifier,
                None => self@.redirect_target is None,
            },
    {
        proof {
            use_type_invariant(&self);
        }
        (self.specifier, self.module_kind, self.source_bytes, self.redirect_target)
    }

    /// The URL that finally answered, where it is not the specifier.
    pub fn redirect_target(&self) -> (target: Option<&ModuleSpecifier>)
        ensures
            match target {
                Some(found) => self@.redirect_target == Some(found@) && found@ != self@.specifier,
                None => self@.redirect_target is None,
            },
    {
        proof {
            use_type_invariant(self);
        }
        match &self.redirect_target {
            Some(target) => Some(target),
            None => None,
        }
    }
}

/// The scheme of a specifier that is fetched from the network.
pub open spec fn is_network_scheme(scheme: Seq<char>) -> bool {
    scheme == "http"@ || scheme == "https"@
}

/// The scheme of a specifier that is read from a local file.
pub open spec fn is_file_scheme(scheme: Seq<char>) -> bool {
    scheme == "file"@
}

/// The fetch plan of a specifier, given whether it names a local path.
pub open spec fn planned(specifier: Seq<char>, has_path: bool) -> Result<
    FetchPlanView,
    LoadErrorView,
> {
    let scheme = scheme_of(specifier);
    if is_network_scheme(scheme) {
        Ok(FetchPlanView { specifier, from_file: false })
    } else if is_file_scheme(scheme) {
        if has_path {
            Ok(FetchPlanView { specifier, from_file: true })
        } else {
            Err(LoadErrorView::InvalidFileUrl)
        }
    } else {
        Err(LoadErrorView::UnsupportedScheme(scheme))
    }
}

/// A status in the success class.
pub open spec fn is_success_status(status: u16) -> bool {
    200 <= status <= 299
}

/// The bytes and the redirect target that a fetch outcome gives to a plan.
/// Only the success that the plan asked for counts: from a file, its
/// contents; from the network, a response with a success status. The
/// redirect target is the URL that answered, where it is not the specifier.
pub open spec fn fetched(plan: FetchPlanView, outcome: FetchOutcomeView) -> Result<
    (Seq<u8>, Option<Seq<char>>),
    LoadErrorView,
> {
    if plan.from_file {
        match outcome {
            FetchOutcomeView::FileContents(bytes) => Ok((bytes, None)),
            _ => Err(LoadErrorView::ReadFailed),
        }
    } else {
        match outcome {
            FetchOutcomeView::Response { status, final_url, body } => if !is_success_status(status) {
                Err(LoadErrorView::HttpStatus(status))
            } else if final_url != plan.specifier {
                Ok((body, Some(final_url)))
            } else {
                Ok((body, None))
            },
            _ => Err(LoadErrorView::RequestFailed),
        }
    }
}

/// The module kind that a module of the classified kind is loaded as, under
/// the requested kind: script for an unconstrained request of script source,
/// structured data for a request of structured data that is classified so.
pub open spec fn reconciled(requested: RequestedModuleKind, classified: SourceKind) -> Result<
    ModuleKind,
    LoadErrorView,
> {
    if requested == RequestedModuleKind::Unconstrained && classified != SourceKind::StructuredData {
        Ok(ModuleKind::Script)
    } else if requested == RequestedModuleKind::StructuredData && classified
        == SourceKind::StructuredData {
        Ok(ModuleKind::StructuredData)
    } else {
        Err(LoadErrorView::ModuleKindMismatch { requested, classified })
    }
}

/// What a load yields: the fetch is settled, the source is classified by its
/// specifier and made executable, and the kinds are reconciled, in this
/// order; the first failure ends the load.
pub open spec fn loaded(
    plan: FetchPlanView,
    requested: RequestedModuleKind,
    outcome: FetchOutcomeView,
) -> Result<RecordView, LoadErrorView> {
    match fetched(plan, outcome) {
        Err(error) => Err(error),
        Ok((bytes, redirect_target)) => {
            let classified = kind_of(media_type_name(plan.specifier));
            match executable_source(plan.specifier, classified, bytes) {
                Err(message) => Err(LoadErrorView::Compile(message)),
                Ok(source_bytes) => match reconciled(requested, classified) {
                    Err(error) => Err(error),
                    Ok(module_kind) => Ok(
                        RecordView {
                            specifier: plan.specifier,
                            module_kind,
                            source_bytes,
                            redirect_target,
                        },
                    ),
                },
            }
        },
    }
}

/// The view of a planning result.
pub open spec fn plan_view(result: Result<FetchPlan, LoadError>) -> Result<
    FetchPlanView,
    LoadErrorView,
> {
    match result {
        Ok(plan) => Ok(plan@),
        Err(error) => Err(error@),
    }
}

/// The view of a load result.
pub open spec fn load_view(result: Result<LoadedModuleRecord, LoadError>) -> Result<
    RecordView,
    LoadErrorView,
> {
    match result {
        Ok(record) => Ok(record@),
        Err(error) => Err(error@),
    }
}

/// Plans the fetch of a specifier, given the local path that it names, if any.
pub fn plan_with(specifier: &ModuleSpecifier, path: Option<PathBuf>) -> (result: Result<
    FetchPlan,
    LoadError,
>)
    ensures
        plan_view(result) == planned(specifier@, path is Some),
{
    let scheme = specifier.scheme();
    if same_text(&scheme, "http") || same_text(&scheme, "https") {
        Ok(FetchPlan { specifier: specifier.clone(), origin: Origin::Network })
    } else if same_text(&scheme, "file") {
        match path {
            Some(found) => Ok(FetchPlan { specifier: specifier.clone(), origin: Origin::File(found) }),
            None => Err(LoadError::InvalidFileUrl),
        }
    } else {
        Err(LoadError::UnsupportedScheme(scheme))
    }
}

/// Settles a fetch: takes the bytes and the redirect target out of the
/// outcome, or says why there are none.
pub fn settle_fetch(plan: &FetchPlan, outcome: FetchOutcome) -> (result: Result<
    (Vec<u8>, Option<ModuleSpecifier>),
    LoadError,
>)
    ensures
        match result {
            Ok((bytes, target)) => fetched(plan@, outcome@) == Ok::<
                (Seq<u8>, Option<Seq<char>>),
                LoadErrorView,
            >(
                (
                    bytes@,
                    match target {
                        Some(found) => Some(found@),
                        None => None,
                    },
                ),
            ),
            Err(error) => fetched(plan@, outcome@) == Err::<
                (Seq<u8>, Option<Seq<char>>),
                LoadErrorView,
            >(error@),
        },
{
    match plan.origin {
        Origin::File(_) => match outcome {
            FetchOutcome::FileContents(bytes) => Ok((bytes, None)),
            _ => Err(LoadError::ReadFailed),
        },
        Origin::Network => match outcome {
            FetchOutcome::Response { status, final_url, body } => {
                if status < 200 || status > 299 {
                    Err(LoadError::HttpStatus(status))
                } else if !final_url.same_as(&plan.specifier) {
                    Ok((body, Some(final_url)))
                } else {
                    Ok((body, None))
                }
            },
            _ => Err(LoadError::RequestFailed),
        },
    }
}

/// Reconciles the requested module kind with the classified source kind.
pub fn reconcile(requested: RequestedModuleKind, classified: SourceKind) -> (result: Result<
    ModuleKind,
    LoadError,
>)
    ensures
        match result {
            Ok(kind) => reconciled(requested, classified) == Ok::<ModuleKind, LoadErrorView>(kind),
            Err(error) => reconciled(requested, classified) == Err::<ModuleKind, LoadErrorView>(
                error@,
            ),
        },
{
    match (requested, classified) {
        (RequestedModuleKind::Unconstrained, SourceKind::StructuredData) => Err(
            LoadError::ModuleKindMismatch { requested, classified },
        ),
        (RequestedModuleKind::Unconstrained, _) => Ok(ModuleKind::Script),
        (RequestedModuleKind::StructuredData, SourceKind::StructuredData) => Ok(
            ModuleKind::StructuredData,
        ),
        _ => Err(LoadError::ModuleKindMismatch { requested, classified }),
    }
}

/// The loader that the guest runtime's module graph is built with: it
/// resolves import strings, and loads from `http`, `https` and `file`.
pub struct NetworkModuleLoader;

impl NetworkModuleLoader {
    /// Resolves an import string against the specifier of the importing
    /// module. The result depends on the two texts alone, and a specifier
    /// that comes out is fully resolved.
    pub fn resolve(&self, specifier: &str, referrer: &str) -> (resolved: Result<
        ModuleSpecifier,
        ResolutionError,
    >)
        ensures
            specifier_of(resolved) == resolution_of(specifier@, referrer@),
            resolved matches Ok(found) ==> is_fully_resolved(found@),
    {
        resolve_import(specifier, referrer)
    }

    /// Plans the fetch of a specifier: over the network for `http` and
    /// `https`, from the local path that a `file` specifier names, and not at
    /// all for any other scheme.
    pub fn plan(&self, specifier: &ModuleSpecifier) -> (result: Result<FetchPlan, LoadError>)
        ensures
            plan_view(result) == planned(specifier@, true) || plan_view(result) == planned(
                specifier@,
                false,
            ),
    {
        let path = local_path(specifier.as_str());
        plan_with(specifier, path)
    }

    /// Completes a load with the outcome of the fetch that its plan asked for.
    pub fn load(
        &self,
        plan: FetchPlan,
        requested: RequestedModuleKind,
        outcome: FetchOutcome,
    ) -> (result: Result<LoadedModuleRecord, LoadError>)
        ensures
            load_view(result) == loaded(plan@, requested, outcome@),
    {
        let (bytes, redirect_target) = match settle_fetch(&plan, outcome) {
            Ok(settled) => settled,
            Err(error) => {
                return Err(error);
            },
        };
        let specifier = plan.specifier;
        let classified = SourceKind::of_specifier(&specifier);
        let source_bytes = match make_executable(&specifier, classified, bytes) {
            Ok(source) => source,
            Err(message) => {
                return Err(LoadError::Compile(message));
            },
        };
        match reconcile(requested, classified) {
            Ok(module_kind) => Ok(
                LoadedModuleRecord { specifier, module_kind, source_bytes, redirect_target },
            ),
            Err(error) => Err(error),
        }
    }
}

/// A file that cannot be read gives no record: whatever comes back for a
/// file plan other than the file's contents, the load fails at the fetch.
pub proof fn lemma_unreadable_file_gives_no_record(
    plan: FetchPlanView,
    requested: RequestedModuleKind,
    outcome: FetchOutcomeView,
)
    requires
        plan.from_file,
        !(outcome is FileContents),
    ensures
        loaded(plan, requested, outcome) == Err::<RecordView, LoadErrorView>(
            LoadErrorView::ReadFailed,
        ),
        LoadErrorView::ReadFailed.kind() == ErrorKind::Load,
{
}

/// A response without a success status gives no record, and the failure is
/// one of the load, not of the run.
pub proof fn lemma_error_status_gives_no_record(
    plan: FetchPlanView,
    requested: RequestedModuleKind,
    outcome: FetchOutcomeView,
)
    requires
        !plan.from_file,
        outcome matches FetchOutcomeView::Response { status, .. } && !is_success_status(status),
    ensures
        loaded(plan, requested, outcome) matches Err(error) && error
            == LoadErrorView::HttpStatus(outcome->status) && error.kind() == ErrorKind::Load,
{
}

/// The plan of a specifier reads from a file exactly when the specifier has
/// the `file` scheme, and there is no plan for a scheme that is none of
/// `http`, `https` and `file`.
pub proof fn lemma_plan_follows_scheme(specifier: Seq<char>, has_path: bool)
    ensures
        planned(specifier, has_path) matches Ok(plan) ==> plan.specifier == specifier && (
        plan.from_file <==> is_file_scheme(scheme_of(specifier))) && (!plan.from_file
            <==> is_network_scheme(scheme_of(specifier))),
        planned(specifier, has_path) matches Err(error) ==> error.kind() == ErrorKind::Load,
        !is_network_scheme(scheme_of(specifier)) && !is_file_scheme(scheme_of(specifier))
            ==> planned(specifier, has_path) == Err::<FetchPlanView, LoadErrorView>(
            LoadErrorView::UnsupportedScheme(scheme_of(specifier)),
        ),
{
    reveal_strlit("http");
    reveal_strlit("https");
    reveal_strlit("file");
    if is_network_scheme(scheme_of(specifier)) && is_file_scheme(scheme_of(specifier)) {
        assert("http"@.len() == 4 && "https"@.len() == 5 && "file"@.len() == 4);
        assert("http"@[0] == 'h' && "file"@[0] == 'f');
    }
}

/// A record names its redirect target exactly where the fetch was
/// redirected: the target is then the URL that answered, it differs from the
/// specifier, and the record gives both names the same source.
pub proof fn lemma_redirect_names_the_same_source(
    plan: FetchPlanView,
    requested: RequestedModuleKind,
    outcome: FetchOutcomeView,
    record: RecordView,
)
    requires
        loaded(plan, requested, outcome) == Ok::<RecordView, LoadErrorView>(record),
    ensures
        record.specifier == plan.specifier,
        record.source_of(record.specifier) == Some(record.source_bytes),
        record.redirect_target is Some <==> !plan.from_file && outcome is Response
            && outcome->final_url != plan.specifier,
        record.redirect_target is Some ==> record.redirect_target == Some(outcome->final_url),
        record.redirect_target is Some ==> record.redirect_target->Some_0 != record.specifier,
        record.redirect_target is Some ==> record.source_of(record.redirect_target->Some_0)
            == record.source_of(record.specifier),
{
}

/// Only two module kinds can be asked for: a request for any other kind
/// never gives a record, and where the fetch and the transpiler raise no
/// objection of their own, the load fails as a mismatch of module kinds.
pub proof fn lemma_other_kinds_are_refused(plan: FetchPlanView, outcome: FetchOutcomeView)
    ensures
        loaded(plan, RequestedModuleKind::Other, outcome) is Err,
        fetched(plan, outcome) is Ok && executable_source(
            plan.specifier,
            kind_of(media_type_name(plan.specifier)),
            fetched(plan, outcome)->Ok_0.0,
        ) is Ok ==> loaded(plan, RequestedModuleKind::Other, outcome)->Err_0.kind()
            == ErrorKind::ModuleKindMismatch,
{
}

/// The kinds are reconciled as the request demands: an unconstrained request
/// is met by script source of any kind, a request for structured data by
/// structured data alone, and nothing else is met at all.
pub proof fn lemma_reconciliation(requested: RequestedModuleKind, classified: SourceKind)
    ensures
        reconciled(requested, classified) == Ok::<ModuleKind, LoadErrorView>(ModuleKind::Script)
            <==> requested == RequestedModuleKind::Unconstrained && classified
            != SourceKind::StructuredData,
        reconciled(requested, classified) == Ok::<ModuleKind, LoadErrorView>(
            ModuleKind::StructuredData,
        ) <==> requested == RequestedModuleKind::StructuredData && classified
            == SourceKind::StructuredData,
        reconciled(requested, classified) matches Err(error) ==> error.kind()
            == ErrorKind::ModuleKindMismatch,
{
}

} // verus!
