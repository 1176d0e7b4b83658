//! The install pipeline as a state machine. Each call of `step` takes what
//! came of the last action (an event) and names the next action; the caller
//! performs actions (requests, extraction, probing, copying) and reports back.
//! Order: token, manifest (through an index when the registry serves one),
//! each layer downloaded then applied in manifest order, binary located and
//! probed, decision, copy.

use vstd::prelude::*;
use crate::registry::{
    blob_url, blob_url_of, bearer, bearer_of, image_reference, manifest_url, manifest_url_of,
    repository_of, scope_of, select_platform, selected, is_for, token_scope, check_managed,
    is_managed, ImageManifest, ImageReference, ManifestDescriptor, ACCEPT_ANY_MANIFEST,
    ACCEPT_SINGLE_MANIFEST, IMAGE_TAG, REGISTRY_URL, TARGET_ARCH, TARGET_OS,
};
use crate::text::join2;
use crate::version::{
    decide, decision_of, order_against, order_facts, parse_version, reported_version, view_of, InstallDecision,
    Version,
};

verus! {

/// Why an install run stopped.
#[derive(Debug, PartialEq, Eq)]
pub enum InstallError {
    /// The program is not one of the managed programs.
    NotManaged,
    /// The token exchange failed.
    Auth,
    /// A manifest request failed or its body was malformed.
    Registry,
    /// The manifest response had this content type, which is neither an
    /// index nor a manifest.
    UnsupportedManifestType(String),
    /// The index holds no entry for the target platform.
    NoMatchingPlatform,
    /// A layer blob could not be fetched or saved.
    Blob,
    /// A layer could not be extracted.
    Extraction,
    /// The image holds no binary at the expected path.
    BinaryNotFound,
    /// The candidate binary failed its version probe.
    VersionProbe,
    /// The final copy or its permission change failed.
    Copy,
}

/// A manifest response, decoded according to its content type.
#[derive(Debug)]
pub enum ManifestResponse {
    /// An image index or manifest list.
    Index(Vec<ManifestDescriptor>),
    /// A single image manifest.
    Image(ImageManifest),
    /// A response with this other content type.
    Unsupported(String),
}

/// What came of the last action.
#[derive(Debug)]
pub enum Event {
    /// The token exchange gave this token.
    Token(String),
    /// A manifest request was answered.
    Manifest(ManifestResponse),
    /// The last action (download, extraction, copy) completed.
    Done,
    /// Whether the binary exists at the path that was asked about.
    BinaryPresent(bool),
    /// The candidate's version probe: the text it printed, or `None` when it
    /// could not run or exited with failure.
    ProbeOutput(Option<String>),
    /// The answer to the upgrade question.
    Confirmed(bool),
    /// The last action failed.
    Failed,
}

/// How a run ended without error.
#[derive(Clone, Copy, Debug, PartialEq, Eq)]
pub enum Outcome {
    Installed,
    Upgraded,
    Reinstalled,
    /// The same version is installed and no reinstall was forced.
    UpToDate,
    /// The installed version is newer than the candidate.
    NewerInstalled,
    /// The upgrade was declined.
    Declined,
}

/// The next thing to do.
#[derive(Debug)]
pub enum Action {
    /// Ask the token endpoint for a pull token with this scope.
    RequestToken { scope: String },
    /// Fetch a manifest.
    RequestManifest { url: String, accept: String, authorization: String },
    /// Fetch layer `index` and save it.
    DownloadLayer { index: usize, url: String, authorization: String },
    /// Extract saved layer `index` onto the staging root.
    ApplyLayer { index: usize },
    /// Check that the binary exists at this path under the staging root.
    LocateBinary { path: String },
    /// Run the binary at this path under the staging root with `--version`.
    ProbeCandidate { path: String },
    /// Ask whether to upgrade.
    ConfirmUpgrade,
    /// Copy the staged binary into the output directory, executable.
    CopyBinary { path: String, file_name: String },
    /// The run is over.
    Finish(Outcome),
    /// The run failed.
    Abort(InstallError),
}

/// Where a run stands.
#[derive(Clone, Copy, Debug, PartialEq, Eq)]
pub enum Stage {
    Start,
    AwaitToken,
    AwaitManifest,
    AwaitPlatformManifest,
    Downloading(usize),
    Applying(usize),
    Locating,
    Probing,
    Confirming,
    Copying(InstallDecision),
    Finished,
}

/// One install run.
#[derive(Debug)]
pub struct Installer {
    pub program: String,
    pub reference: ImageReference,
    pub force: bool,
    pub installed: Option<Version>,
    pub stage: Stage,
    pub token: String,
    pub layers: Vec<String>,
}

/// Where the binary stands under the staging root.
pub open spec fn binary_path_of(program: Seq<char>) -> Seq<char> {
    "usr/local/bin/"@ + program
}

/// The outcome of a completed copy.
pub open spec fn copied_outcome(d: InstallDecision) -> Outcome {
    match d {
        InstallDecision::Upgrade => Outcome::Upgraded,
        InstallDecision::Reinstall => Outcome::Reinstalled,
        _ => Outcome::Installed,
    }
}

impl Installer {
    /// The state is consistent: fixed parts describe the program, and a
    /// layer index stands inside the layer list.
    pub open spec fn wf(&self) -> bool {
        &&& self.reference.repository@ == repository_of(self.program@)
        &&& self.reference.tag@ == IMAGE_TAG@
        &&& self.reference.registry@ == REGISTRY_URL@
        &&& match self.stage {
            Stage::Downloading(i) => i < self.layers@.len(),
            Stage::Applying(i) => i < self.layers@.len(),
            Stage::Copying(d) => d == InstallDecision::Install || d == InstallDecision::Upgrade
                || d == InstallDecision::Reinstall,
            _ => true,
        }
    }

    /// The parts that no step changes.
    pub open spec fn same_run(&self, other: &Installer) -> bool {
        &&& other.program@ == self.program@
        &&& other.reference.repository@ == self.reference.repository@
        &&& other.reference.tag@ == self.reference.tag@
        &&& other.reference.registry@ == self.reference.registry@
        &&& other.force == self.force
        &&& view_of(other.installed) == view_of(self.installed)
    }

    /// The token and the layer list carry over, but where a step sets them:
    /// the token on the token step, the layers on a manifest step.
    pub open spec fn keeps_token_and_layers(&self, post: &Installer) -> bool {
        &&& !(self.stage is AwaitToken) ==> post.token@ == self.token@
        &&& !(self.stage is AwaitManifest) && !(self.stage is AwaitPlatformManifest) ==> post.layers@
            == self.layers@
    }

    /// What is known of the order between the version that a probe output
    /// reports and the installed version, on the probe step.
    pub open spec fn probe_order_known(&self, e: Event) -> bool {
        match (self.stage, e) {
            (Stage::Probing, Event::ProbeOutput(Some(out))) => match (
                reported_version(out@),
                view_of(self.installed),
            ) {
                (Some(v), Some(i)) => order_facts(v, i),
                _ => true,
            },
            _ => true,
        }
    }

    /// `a` fetches layer `i` of this run.
    pub open spec fn fetches_layer(&self, i: int, a: Action) -> bool {
        match a {
            Action::DownloadLayer { index, url, authorization } => {
                &&& index == i
                &&& url@ == blob_url_of(
                    self.reference.registry@,
                    self.reference.repository@,
                    self.layers@[i]@,
                )
                &&& authorization@ == bearer_of(self.token@)
            },
            _ => false,
        }
    }

    /// `a` asks whether the binary is in place.
    pub open spec fn locates(&self, a: Action) -> bool {
        match a {
            Action::LocateBinary { path } => path@ == binary_path_of(self.program@),
            _ => false,
        }
    }

    /// `a` copies the binary out.
    pub open spec fn copies(&self, a: Action) -> bool {
        match a {
            Action::CopyBinary { path, file_name } => path@ == binary_path_of(self.program@)
                && file_name@ == self.program@,
            _ => false,
        }
    }

    /// After a manifest `m` is taken: its layers are kept in order, and the
    /// first is fetched, or the binary is looked for when there is none.
    pub open spec fn takes_manifest(&self, post: &Installer, m: ImageManifest, a: Action) -> bool {
        &&& post.layers@ == m.layers@
        &&& post.token@ == self.token@
        &&& if m.layers@.len() == 0 {
            post.stage == Stage::Locating && post.locates(a)
        } else {
            post.stage == Stage::Downloading(0) && post.fetches_layer(0, a)
        }
    }

    /// The step from `self` on `e` leads to `post` with action `a`.
    pub open spec fn steps_to(&self, e: Event, post: &Installer, a: Action) -> bool {
        match self.stage {
            Stage::Start => post.stage == Stage::AwaitToken && match a {
                Action::RequestToken { scope } => scope@ == scope_of(self.reference.repository@),
                _ => false,
            },
            Stage::AwaitToken => match e {
                Event::Token(t) => post.stage == Stage::AwaitManifest && post.token@ == t@
                    && match a {
                    Action::RequestManifest { url, accept, authorization } => {
                        &&& url@ == manifest_url_of(
                            self.reference.registry@,
                            self.reference.repository@,
                            self.reference.tag@,
                        )
                        &&& accept@ == ACCEPT_ANY_MANIFEST@
                        &&& authorization@ == bearer_of(t@)
                    },
                    _ => false,
                },
                _ => post.stage == Stage::Finished && a == Action::Abort(InstallError::Auth),
            },
            Stage::AwaitManifest => match e {
                Event::Manifest(ManifestResponse::Index(es)) => post.token@ == self.token@ && (
                exists|k: int|
                    selected(es@, TARGET_OS@, TARGET_ARCH@, k) && post.stage
                        == Stage::AwaitPlatformManifest && match a {
                        Action::RequestManifest { url, accept, authorization } => {
                            &&& url@ == manifest_url_of(
                                self.reference.registry@,
                                self.reference.repository@,
                                es@[k].digest@,
                            )
                            &&& accept@ == ACCEPT_SINGLE_MANIFEST@
                            &&& authorization@ == bearer_of(self.token@)
                        },
                        _ => false,
                    }) || ((forall|j: int|
                    0 <= j < es@.len() ==> !is_for(#[trigger] es@[j], TARGET_OS@, TARGET_ARCH@))
                    && post.stage == Stage::Finished && a == Action::Abort(
                    InstallError::NoMatchingPlatform,
                )),
                Event::Manifest(ManifestResponse::Image(m)) => self.takes_manifest(post, m, a),
                Event::Manifest(ManifestResponse::Unsupported(ct)) => post.stage == Stage::Finished
                    && match a {
                    Action::Abort(InstallError::UnsupportedManifestType(c)) => c@ == ct@,
                    _ => false,
                },
                _ => post.stage == Stage::Finished && a == Action::Abort(InstallError::Registry),
            },
            Stage::AwaitPlatformManifest => match e {
                Event::Manifest(ManifestResponse::Image(m)) => self.takes_manifest(post, m, a),
                _ => post.stage == Stage::Finished && a == Action::Abort(InstallError::Registry),
            },
            Stage::Downloading(i) => match e {
                Event::Done => post.stage == Stage::Applying(i) && a == Action::ApplyLayer {
                    index: i,
                },
                _ => post.stage == Stage::Finished && a == Action::Abort(InstallError::Blob),
            },
            Stage::Applying(i) => match e {
                Event::Done => if i + 1 < self.layers@.len() {
                    post.stage == Stage::Downloading((i + 1) as usize) && self.fetches_layer(
                        i + 1,
                        a,
                    )
                } else {
                    post.stage == Stage::Locating && self.locates(a)
                },
                _ => post.stage == Stage::Finished && a == Action::Abort(InstallError::Extraction),
            },
            Stage::Locating => match e {
                Event::BinaryPresent(true) => post.stage == Stage::Probing && match a {
                    Action::ProbeCandidate { path } => path@ == binary_path_of(self.program@),
                    _ => false,
                },
                _ => post.stage == Stage::Finished && a == Action::Abort(
                    InstallError::BinaryNotFound,
                ),
            },
            Stage::Probing => match e {
                Event::ProbeOutput(Some(out)) => match reported_version(out@) {
                    Some(v) => self.decides(decision_of(order_against(v, view_of(self.installed)), self.force), post, a),
                    None => post.stage == Stage::Finished && a == Action::Abort(
                        InstallError::VersionProbe,
                    ),
                },
                _ => post.stage == Stage::Finished && a == Action::Abort(
                    InstallError::VersionProbe,
                ),
            },
            Stage::Confirming => match e {
                Event::Confirmed(true) => post.stage == Stage::Copying(InstallDecision::Upgrade)
                    && self.copies(a),
                _ => post.stage == Stage::Finished && a == Action::Finish(Outcome::Declined),
            },
            Stage::Copying(d) => match e {
                Event::Done => post.stage == Stage::Finished && a == Action::Finish(
                    copied_outcome(d),
                ),
                _ => post.stage == Stage::Finished && a == Action::Abort(InstallError::Copy),
            },
            Stage::Finished => false,
        }
    }

    /// What follows decision `d`: a copy, a question first for an upgrade
    /// that was not forced, or the end of the run.
    pub open spec fn decides(&self, d: InstallDecision, post: &Installer, a: Action) -> bool {
        match d {
            InstallDecision::Skip => post.stage == Stage::Finished && a == Action::Finish(
                Outcome::UpToDate,
            ),
            InstallDecision::DowngradeBlock => post.stage == Stage::Finished && a
                == Action::Finish(Outcome::NewerInstalled),
            InstallDecision::Upgrade => if self.force {
                post.stage == Stage::Copying(d) && self.copies(a)
            } else {
                post.stage == Stage::Confirming && a == Action::ConfirmUpgrade
            },
            _ => post.stage == Stage::Copying(d) && self.copies(a),
        }
    }
}

impl Installer {
    /// A run for `program`, given the version found installed (if any) and
    /// whether a reinstall of the same version is forced. Fails with
    /// `NotManaged` exactly when the program is not managed.
    pub fn new(program: &str, installed: Option<Version>, force: bool) -> (r: Result<
        Installer,
        InstallError,
    >)
        ensures
            match r {
                Ok(run) => {
                    &&& is_managed(program@)
                    &&& run.wf()
                    &&& run.stage == Stage::Start
                    &&& run.program@ == program@
                    &&& run.force == force
                    &&& view_of(run.installed) == view_of(installed)
                },
                Err(err) => !is_managed(program@) && err == InstallError::NotManaged,
            },
    {
        if !check_managed(program) {
            return Err(InstallError::NotManaged);
        }
        Ok(Installer {
            program: String::from_str(program),
            reference: image_reference(program),
            force,
            installed,
            stage: Stage::Start,
            token: String::new(),
            layers: Vec::new(),
        })
    }

    /// Whether the run is over.
    pub fn is_finished(&self) -> (r: bool)
        ensures
            r == (self.stage == Stage::Finished),
    {
        match self.stage {
            Stage::Finished => true,
            _ => false,
        }
    }

    fn fetch_layer(&self, i: usize) -> (a: Action)
        requires
            i < self.layers@.len(),
        ensures
            self.fetches_layer(i as int, a),
    {
        Action::DownloadLayer {
            index: i,
            url: blob_url(
                self.reference.registry.as_str(),
                self.reference.repository.as_str(),
                self.layers[i].as_str(),
            ),
            authorization: bearer(self.token.as_str()),
        }
    }

    fn locate(&self) -> (a: Action)
        ensures
            self.locates(a),
    {
        Action::LocateBinary { path: join2("usr/local/bin/", self.program.as_str()) }
    }

    fn copy_out(&self) -> (a: Action)
        ensures
            self.copies(a),
    {
        Action::CopyBinary {
            path: join2("usr/local/bin/", self.program.as_str()),
            file_name: String::from_str(self.program.as_str()),
        }
    }

    fn take_manifest(&mut self, m: ImageManifest) -> (a: Action)
        requires
            old(self).wf(),
        ensures
            final(self).wf(),
            old(self).same_run(final(self)),
            final(self).token@ == old(self).token@,
            old(self).takes_manifest(final(self), m, a),
    {
        self.layers = m.layers;
        if self.layers.len() == 0 {
            self.stage = Stage::Locating;
            self.locate()
        } else {
            self.stage = Stage::Downloading(0);
            self.fetch_layer(0)
        }
    }

    fn fail(&mut self, err: InstallError) -> (a: Action)
        requires
            old(self).wf(),
        ensures
            final(self).wf(),
            old(self).same_run(final(self)),
            final(self).token@ == old(self).token@,
            final(self).layers@ == old(self).layers@,
            final(self).stage == Stage::Finished,
            a == Action::Abort(err),
    {
        self.stage = Stage::Finished;
        Action::Abort(err)
    }

    fn finish(&mut self, o: Outcome) -> (a: Action)
        requires
            old(self).wf(),
        ensures
            final(self).wf(),
            old(self).same_run(final(self)),
            final(self).token@ == old(self).token@,
            final(self).layers@ == old(self).layers@,
            final(self).stage == Stage::Finished,
            a == Action::Finish(o),
    {
        self.stage = Stage::Finished;
        Action::Finish(o)
    }

    fn act_on(&mut self, d: InstallDecision) -> (a: Action)
        requires
            old(self).wf(),
        ensures
            final(self).wf(),
            old(self).same_run(final(self)),
            final(self).token@ == old(self).token@,
            final(self).layers@ == old(self).layers@,
            old(self).decides(d, final(self), a),
    {
        match d {
            InstallDecision::Skip => self.finish(Outcome::UpToDate),
            InstallDecision::DowngradeBlock => self.finish(Outcome::NewerInstalled),
            InstallDecision::Upgrade => {
                if self.force {
                    self.stage = Stage::Copying(d);
                    self.copy_out()
                } else {
                    self.stage = Stage::Confirming;
                    Action::ConfirmUpgrade
                }
            },
            _ => {
                self.stage = Stage::Copying(d);
                self.copy_out()
            },
        }
    }

    /// Takes what came of the last action and gives the next one. The first
    /// step, from `Start`, ignores its event and asks for the token.
    pub fn step(&mut self, e: Event) -> (a: Action)
        requires
            old(self).wf(),
            old(self).stage != Stage::Finished,
        ensures
            final(self).wf(),
            old(self).same_run(final(self)),
            old(self).steps_to(e, final(self), a),
            old(self).keeps_token_and_layers(final(self)),
            old(self).probe_order_known(e),
    {
        match self.stage {
            Stage::Start => {
                self.stage = Stage::AwaitToken;
                Action::RequestToken { scope: token_scope(self.reference.repository.as_str()) }
            },
            Stage::AwaitToken => match e {
                Event::Token(t) => {
                    let a = Action::RequestManifest {
                        url: manifest_url(
                            self.reference.registry.as_str(),
                            self.reference.repository.as_str(),
                            self.reference.tag.as_str(),
                        ),
                        accept: String::from_str(ACCEPT_ANY_MANIFEST),
                        authorization: bearer(t.as_str()),
                    };
                    self.token = t;
                    self.stage = Stage::AwaitManifest;
                    a
                },
                _ => self.fail(InstallError::Auth),
            },
            Stage::AwaitManifest => match e {
                Event::Manifest(ManifestResponse::Index(es)) => {
                    match select_platform(&es, TARGET_OS, TARGET_ARCH) {
                        Some(k) => {
                            let a = Action::RequestManifest {
                                url: manifest_url(
                                    self.reference.registry.as_str(),
                                    self.reference.repository.as_str(),
                                    es[k].digest.as_str(),
                                ),
                                accept: String::from_str(ACCEPT_SINGLE_MANIFEST),
                                authorization: bearer(self.token.as_str()),
                            };
                            self.stage = Stage::AwaitPlatformManifest;
                            a
                        },
                        None => self.fail(InstallError::NoMatchingPlatform),
                    }
                },
                Event::Manifest(ManifestResponse::Image(m)) => self.take_manifest(m),
                Event::Manifest(ManifestResponse::Unsupported(ct)) => self.fail(
                    InstallError::UnsupportedManifestType(ct),
                ),
                _ => self.fail(InstallError::Registry),
            },
            Stage::AwaitPlatformManifest => match e {
                Event::Manifest(ManifestResponse::Image(m)) => self.take_manifest(m),
                _ => self.fail(InstallError::Registry),
            },
            Stage::Downloading(i) => match e {
                Event::Done => {
                    self.stage = Stage::Applying(i);
                    Action::ApplyLayer { index: i }
                },
                _ => self.fail(InstallError::Blob),
            },
            Stage::Applying(i) => match e {
                Event::Done => {
                    if i < self.layers.len() - 1 {
                        self.stage = Stage::Downloading(i + 1);
                        self.fetch_layer(i + 1)
                    } else {
                        self.stage = Stage::Locating;
                        self.locate()
                    }
                },
                _ => self.fail(InstallError::Extraction),
            },
            Stage::Locating => match e {
                Event::BinaryPresent(true) => {
                    self.stage = Stage::Probing;
                    Action::ProbeCandidate { path: join2("usr/local/bin/", self.program.as_str()) }
                },
                _ => self.fail(InstallError::BinaryNotFound),
            },
            Stage::Probing => match e {
                Event::ProbeOutput(Some(out)) => match parse_version(out.as_str()) {
                    Some(v) => {
                        let d = decide(&v, &self.installed, self.force);
                        self.act_on(d)
                    },
                    None => self.fail(InstallError::VersionProbe),
                },
                _ => self.fail(InstallError::VersionProbe),
            },
            Stage::Confirming => match e {
                Event::Confirmed(true) => {
                    self.stage = Stage::Copying(InstallDecision::Upgrade);
                    self.copy_out()
                },
                _ => self.finish(Outcome::Declined),
            },
            Stage::Copying(d) => match e {
                Event::Done => {
                    let o = match d {
                        InstallDecision::Upgrade => Outcome::Upgraded,
                        InstallDecision::Reinstall => Outcome::Reinstalled,
                        _ => Outcome::Installed,
                    };
                    self.finish(o)
                },
                _ => self.fail(InstallError::Copy),
            },
            Stage::Finished => vstd::pervasive::unreached(),
        }
    }
}

/// On an image index, a run fetches by digest the manifest of the one entry
/// built for the target platform; when no entry is, it fails with
/// `NoMatchingPlatform`, ends, and fetches no blob.
pub proof fn lemma_index_selects_platform(
    pre: Installer,
    es: Vec<ManifestDescriptor>,
    post: Installer,
    a: Action,
)
    requires
        pre.stage == Stage::AwaitManifest,
        pre.steps_to(Event::Manifest(ManifestResponse::Index(es)), &post, a),
    ensures
        forall|m: int|
            0 <= m < es@.len() && is_for(#[trigger] es@[m], TARGET_OS@, TARGET_ARCH@) && (forall|
                j: int,
            | 0 <= j < es@.len() && j != m ==> !is_for(#[trigger] es@[j], TARGET_OS@, TARGET_ARCH@))
                ==> post.stage == Stage::AwaitPlatformManifest && match a {
                Action::RequestManifest { url, accept, authorization } => {
                    &&& url@ == manifest_url_of(
                        pre.reference.registry@,
                        pre.reference.repository@,
                        es@[m].digest@,
                    )
                    &&& accept@ == ACCEPT_SINGLE_MANIFEST@
                    &&& authorization@ == bearer_of(pre.token@)
                },
                _ => false,
            },
        (forall|j: int| 0 <= j < es@.len() ==> !is_for(#[trigger] es@[j], TARGET_OS@, TARGET_ARCH@))
            ==> post.stage == Stage::Finished && a == Action::Abort(
            InstallError::NoMatchingPlatform,
        ),
{
    assert forall|m: int|
        0 <= m < es@.len() && is_for(#[trigger] es@[m], TARGET_OS@, TARGET_ARCH@) && (forall|
            j: int,
        | 0 <= j < es@.len() && j != m ==> !is_for(#[trigger] es@[j], TARGET_OS@, TARGET_ARCH@))
        implies post.stage == Stage::AwaitPlatformManifest && match a {
        Action::RequestManifest { url, accept, authorization } => {
            &&& url@ == manifest_url_of(
                pre.reference.registry@,
                pre.reference.repository@,
                es@[m].digest@,
            )
            &&& accept@ == ACCEPT_SINGLE_MANIFEST@
            &&& authorization@ == bearer_of(pre.token@)
        },
        _ => false,
    } by {
        let e = Event::Manifest(ManifestResponse::Index(es));
        assert(pre.steps_to(e, &post, a));
        assert(e is Manifest);
        assert(e->Manifest_0 is Index);
        assert(e->Manifest_0->Index_0 == es);
        if exists|k: int| selected(es@, TARGET_OS@, TARGET_ARCH@, k) {
            let k = choose|k: int| selected(es@, TARGET_OS@, TARGET_ARCH@, k);
            assert(k == m);
        } else {
            assert(forall|j: int|
                0 <= j < es@.len() ==> !is_for(#[trigger] es@[j], TARGET_OS@, TARGET_ARCH@));
            assert(!is_for(es@[m], TARGET_OS@, TARGET_ARCH@));
        }
    }
    if forall|j: int| 0 <= j < es@.len() ==> !is_for(#[trigger] es@[j], TARGET_OS@, TARGET_ARCH@) {
        if exists|k: int| selected(es@, TARGET_OS@, TARGET_ARCH@, k) {
            let k = choose|k: int| selected(es@, TARGET_OS@, TARGET_ARCH@, k);
            assert(!is_for(es@[k], TARGET_OS@, TARGET_ARCH@));
        }
    }
}

/// A single manifest is used as it came: no entry is selected and no other
/// manifest is fetched; its layers, in their order, are what the run applies.
pub proof fn lemma_image_used_as_is(pre: Installer, m: ImageManifest, post: Installer, a: Action)
    requires
        pre.stage == Stage::AwaitManifest,
        pre.steps_to(Event::Manifest(ManifestResponse::Image(m)), &post, a),
    ensures
        post.layers@ == m.layers@,
        post.stage != Stage::AwaitPlatformManifest,
        !(a is RequestManifest),
        m.layers@.len() > 0 ==> post.stage == Stage::Downloading(0) && post.fetches_layer(0, a),
{
}

/// Layers go in manifest order, each downloaded before it is applied, with
/// the same layer list and token throughout: after
/// layer `i` is applied comes the download of layer `i + 1`, or, after the
/// last, the search for the binary; after a download comes its application.
pub proof fn lemma_layers_in_order(pre: Installer, i: usize, post: Installer, a: Action)
    requires
        pre.wf(),
        pre.steps_to(Event::Done, &post, a),
        pre.keeps_token_and_layers(&post),
    ensures
        (pre.stage is Downloading || pre.stage is Applying) ==> post.layers@ == pre.layers@
            && post.token@ == pre.token@,
        pre.stage == Stage::Downloading(i) ==> post.stage == Stage::Applying(i) && a == (
        Action::ApplyLayer { index: i }),
        pre.stage == Stage::Applying(i) && i + 1 < pre.layers@.len() ==> post.stage
            == Stage::Downloading((i + 1) as usize) && pre.fetches_layer(i + 1, a),
        pre.stage == Stage::Applying(i) && i + 1 == pre.layers@.len() ==> post.stage
            == Stage::Locating && pre.locates(a),
{
}

} // verus!
