//! The questions of the cluster diagnostic, one after the other.
//!
//! Each question is asked whatever became of the one before it, unless what it needs to know was not
//! learnt; then why that is takes the place of its answer. Whoever holds the connection asks what
//! the state says and hands the reply back, with what the domain layer reads in it.

use vstd::prelude::*;

use crate::cluster::{
    access_review, access_served, access_version, answer_of, capabilities, capabilities_found,
    effective_identity, fingerprint, identity, identity_collection, identity_resource,
    identity_served, identity_version, kube_system_told, kube_system_uid, namespace_collection,
    namespace_resource, probed, review_available, review_body, review_document, server_version,
    stated_views, text, text_of_answer, told, Answer, AnswerView, Availability, AvailabilityView,
    Grant, Health, Known, Observed, Offered, ProbeView, Reply, Subject, SubjectView,
};
use crate::coverage::Outcome;
use crate::discovery::Discovery;
use crate::document::rendered;
use crate::text::{fill1, filled};

verus! {

// --- what is asked --------------------------------------------------------------------------------

/// Which question is next.
#[derive(Debug, PartialEq, Eq)]
pub enum Stage {
    Version,
    CoreVersions,
    Groups,
    /// The collections of the core group, of a version.
    CoreResources { version: String },
    /// The `kube-system` namespace, in a collection.
    Namespace { gvr: String },
    /// The collections of the group that reviews identities.
    IdentityList { version: String },
    /// Who this session is, by a review created in a collection.
    Review { version: String, gvr: String },
    /// The collections of the group that reviews access.
    AccessList { version: String },
    Done,
}

/// Which question is next.
pub enum StageView {
    Version,
    CoreVersions,
    Groups,
    CoreResources { version: Seq<char> },
    Namespace { gvr: Seq<char> },
    IdentityList { version: Seq<char> },
    Review { version: Seq<char>, gvr: Seq<char> },
    AccessList { version: Seq<char> },
    Done,
}

impl View for Stage {
    type V = StageView;

    open spec fn view(&self) -> StageView {
        match self {
            Stage::Version => StageView::Version,
            Stage::CoreVersions => StageView::CoreVersions,
            Stage::Groups => StageView::Groups,
            Stage::CoreResources { version } => StageView::CoreResources { version: version@ },
            Stage::Namespace { gvr } => StageView::Namespace { gvr: gvr@ },
            Stage::IdentityList { version } => StageView::IdentityList { version: version@ },
            Stage::Review { version, gvr } => StageView::Review { version: version@, gvr: gvr@ },
            Stage::AccessList { version } => StageView::AccessList { version: version@ },
            Stage::Done => StageView::Done,
        }
    }
}

/// One question to the API server.
#[derive(Debug, PartialEq, Eq)]
pub enum Question {
    /// The document at a path.
    Get { path: String },
    /// The `kube-system` namespace, in a collection.
    KubeSystem { gvr: String },
    /// A review, created in a collection with a body.
    Create { gvr: String, body: String },
    /// None: everything was asked.
    Nothing,
}

/// One question to the API server.
pub enum QuestionView {
    Get { path: Seq<char> },
    KubeSystem { gvr: Seq<char> },
    Create { gvr: Seq<char>, body: Seq<char> },
    Nothing,
}

impl View for Question {
    type V = QuestionView;

    open spec fn view(&self) -> QuestionView {
        match self {
            Question::Get { path } => QuestionView::Get { path: path@ },
            Question::KubeSystem { gvr } => QuestionView::KubeSystem { gvr: gvr@ },
            Question::Create { gvr, body } => QuestionView::Create { gvr: gvr@, body: body@ },
            Question::Nothing => QuestionView::Nothing,
        }
    }
}

pub const VERSION_PATH: &'static str = "/version";

pub const CORE_PATH: &'static str = "/api";

pub const GROUPS_PATH: &'static str = "/apis";

pub const CORE_LIST_PATH: &'static str = "/api/{}";

pub const GROUP_LIST_PATH: &'static str = "/apis/{}";

/// What a stage asks.
pub open spec fn asked_at(stage: StageView) -> QuestionView {
    match stage {
        StageView::Version => QuestionView::Get { path: VERSION_PATH@ },
        StageView::CoreVersions => QuestionView::Get { path: CORE_PATH@ },
        StageView::Groups => QuestionView::Get { path: GROUPS_PATH@ },
        StageView::CoreResources { version } => QuestionView::Get {
            path: filled(CORE_LIST_PATH@, seq![version]),
        },
        StageView::Namespace { gvr } => QuestionView::KubeSystem { gvr },
        StageView::IdentityList { version } => QuestionView::Get {
            path: filled(GROUP_LIST_PATH@, seq![version]),
        },
        StageView::Review { version, gvr } => QuestionView::Create {
            gvr,
            body: rendered(review_document(version)),
        },
        StageView::AccessList { version } => QuestionView::Get {
            path: filled(GROUP_LIST_PATH@, seq![version]),
        },
        StageView::Done => QuestionView::Nothing,
    }
}

// --- what is read in a reply ----------------------------------------------------------------------

/// What the domain layer reads in the body of a reply.
#[derive(Debug, PartialEq, Eq)]
pub enum Reading {
    Nothing,
    /// The server's version.
    Version(String),
    /// What a cluster serves: its groups, once both documents that name them are there, or the
    /// collections of a group.
    Documents(Discovery),
    /// Who a review says the session is.
    Subject(Subject),
    /// Whether access can be reviewed, in words.
    Offered(String),
}

/// What the domain layer reads in the body of a reply.
pub enum ReadingView {
    Nothing,
    Version(Seq<char>),
    Documents(Discovery),
    Subject(SubjectView),
    Offered(Seq<char>),
}

impl View for Reading {
    type V = ReadingView;

    open spec fn view(&self) -> ReadingView {
        match self {
            Reading::Nothing => ReadingView::Nothing,
            Reading::Version(version) => ReadingView::Version(version@),
            Reading::Documents(documents) => ReadingView::Documents(*documents),
            Reading::Subject(subject) => ReadingView::Subject(subject@),
            Reading::Offered(words) => ReadingView::Offered(words@),
        }
    }
}

/// The version a reading is.
pub open spec fn version_read(read: ReadingView) -> Option<Seq<char>> {
    match read {
        ReadingView::Version(version) => Some(version),
        _ => None,
    }
}

/// The documents a reading of a reply is, where the reply carried text.
pub open spec fn documents_read(answer: AnswerView, read: ReadingView) -> Option<Discovery> {
    match read {
        ReadingView::Documents(documents) => if text_of_answer(answer) is Some {
            Some(documents)
        } else {
            None
        },
        _ => None,
    }
}

/// The subject a reading is.
pub open spec fn subject_read(read: ReadingView) -> Option<SubjectView> {
    match read {
        ReadingView::Subject(subject) => Some(subject),
        _ => None,
    }
}

/// The words a reading is.
pub open spec fn words_read(read: ReadingView) -> Option<Seq<char>> {
    match read {
        ReadingView::Offered(words) => Some(words),
        _ => None,
    }
}

// --- what is learnt -------------------------------------------------------------------------------

/// A cluster being asked about itself.
#[derive(Debug, PartialEq, Eq)]
pub struct Interrogation {
    pub stage: Stage,
    pub health: Health,
    pub version: Known<String>,
    /// Which groups and versions there are, once that was learnt.
    pub versions: Option<Discovery>,
    /// What the core group serves, and at which version, once that was learnt.
    pub core: Option<(Discovery, String)>,
    pub kube_system_uid: Known<String>,
    pub effective: Known<Subject>,
    pub access: Availability,
}

/// A cluster being asked about itself.
pub struct InterrogationView {
    pub stage: StageView,
    pub health: Seq<ProbeView>,
    pub version: Known<Seq<char>>,
    pub versions: Option<Discovery>,
    pub core: Option<(Discovery, Seq<char>)>,
    pub kube_system_uid: Known<Seq<char>>,
    pub effective: Known<SubjectView>,
    pub access: AvailabilityView,
}

/// What the core group serves, where that was learnt.
pub open spec fn core_view(core: Option<(Discovery, String)>) -> Option<(Discovery, Seq<char>)> {
    match core {
        Some((core, version)) => Some((core, version@)),
        None => None,
    }
}

impl View for Interrogation {
    type V = InterrogationView;

    open spec fn view(&self) -> InterrogationView {
        InterrogationView {
            stage: self.stage@,
            health: self.health@,
            version: self.version@,
            versions: self.versions,
            core: core_view(self.core),
            kube_system_uid: self.kube_system_uid@,
            effective: self.effective@,
            access: self.access@,
        }
    }
}

/// What comes behind the identity: whether access can be reviewed, where the documents read.
pub open spec fn behind_identity(state: InterrogationView) -> InterrogationView {
    match (state.core, state.versions) {
        (Some(_), Some(versions)) => match access_served(versions) {
            Some(version) => InterrogationView {
                stage: StageView::AccessList { version },
                ..state
            },
            None => InterrogationView {
                stage: StageView::Done,
                access: AvailabilityView::NotServedByCluster,
                ..state
            },
        },
        _ => InterrogationView { stage: StageView::Done, ..state },
    }
}

/// What comes behind the namespace: who this session is. Where the documents did not read, nobody
/// can be asked.
pub open spec fn behind_namespace(state: InterrogationView) -> InterrogationView {
    match (state.core, state.versions) {
        (Some(_), Some(versions)) => match identity_served(versions) {
            Some(version) => InterrogationView {
                stage: StageView::IdentityList { version },
                ..state
            },
            None => behind_identity(
                InterrogationView {
                    effective: Known::Unavailable(Outcome::TypeNotServed),
                    ..state
                },
            ),
        },
        _ => behind_identity(
            InterrogationView { effective: Known::Unavailable(Outcome::Disconnected), ..state },
        ),
    }
}

/// What comes behind the discovery documents: the namespace that is evidence of which cluster this
/// is. Where the documents did not read, nobody can be asked.
pub open spec fn behind_documents(state: InterrogationView) -> InterrogationView {
    match state.core {
        Some((core, version)) => match namespace_collection(core, version) {
            Ok(resource) => InterrogationView {
                stage: StageView::Namespace { gvr: resource.gvr@ },
                ..state
            },
            Err(outcome) => behind_namespace(
                InterrogationView { kube_system_uid: Known::Unavailable(outcome), ..state },
            ),
        },
        None => behind_namespace(
            InterrogationView {
                kube_system_uid: Known::Unavailable(Outcome::Disconnected),
                ..state
            },
        ),
    }
}

/// What is known, and asked next, once a question was answered.
pub open spec fn after_answer(
    state: InterrogationView,
    answer: AnswerView,
    read: ReadingView,
) -> InterrogationView {
    match state.stage {
        StageView::Version => InterrogationView {
            stage: StageView::CoreVersions,
            version: told(answer, version_read(read)),
            ..state
        },
        StageView::CoreVersions => if text_of_answer(answer) is Some {
            InterrogationView { stage: StageView::Groups, ..state }
        } else {
            behind_documents(state)
        },
        StageView::Groups => match documents_read(answer, read) {
            Some(versions) => {
                let learnt = InterrogationView { versions: Some(versions), ..state };
                match versions.preferred(""@) {
                    Some(version) => InterrogationView {
                        stage: StageView::CoreResources { version },
                        ..learnt
                    },
                    None => behind_documents(learnt),
                }
            },
            None => behind_documents(state),
        },
        StageView::CoreResources { version } => match documents_read(answer, read) {
            Some(core) => behind_documents(
                InterrogationView { core: Some((core, version)), ..state },
            ),
            None => behind_documents(state),
        },
        StageView::Namespace { .. } => behind_namespace(
            InterrogationView { kube_system_uid: kube_system_told(answer), ..state },
        ),
        StageView::IdentityList { version } => match identity_collection(
            documents_read(answer, read),
            version,
        ) {
            Ok(resource) => InterrogationView {
                stage: StageView::Review { version, gvr: resource.gvr@ },
                ..state
            },
            Err(outcome) => behind_identity(
                InterrogationView { effective: Known::Unavailable(outcome), ..state },
            ),
        },
        StageView::Review { .. } => behind_identity(
            InterrogationView { effective: told(answer, subject_read(read)), ..state },
        ),
        StageView::AccessList { .. } => InterrogationView {
            stage: StageView::Done,
            access: review_available(Some(answer), words_read(read)),
            ..state
        },
        StageView::Done => state,
    }
}

/// What the resource lists of the core group offer, in words.
#[derive(Debug, PartialEq, Eq)]
pub struct Offers {
    pub watch: String,
    pub mutations: String,
    pub remote_logs: String,
}

impl Interrogation {
    /// Nothing asked yet, and nothing known.
    pub fn new() -> (r: Interrogation)
        ensures
            r@ == (InterrogationView {
                stage: StageView::Version,
                health: Seq::empty(),
                version: Known::Unavailable(Outcome::NotQueried),
                versions: None,
                core: None,
                kube_system_uid: Known::Unavailable(Outcome::NotQueried),
                effective: Known::Unavailable(Outcome::NotQueried),
                access: AvailabilityView::NotDetermined(Outcome::RequestFailed),
            }),
    {
        Interrogation {
            stage: Stage::Version,
            health: Health::new(),
            version: Known::Unavailable(Outcome::NotQueried),
            versions: None,
            core: None,
            kube_system_uid: Known::Unavailable(Outcome::NotQueried),
            effective: Known::Unavailable(Outcome::NotQueried),
            access: Availability::NotDetermined(Outcome::RequestFailed),
        }
    }

    /// The next question.
    pub fn question(&self) -> (r: Question)
        ensures
            r@ == asked_at(self@.stage),
    {
        match &self.stage {
            Stage::Version => Question::Get { path: VERSION_PATH.to_owned() },
            Stage::CoreVersions => Question::Get { path: CORE_PATH.to_owned() },
            Stage::Groups => Question::Get { path: GROUPS_PATH.to_owned() },
            Stage::CoreResources { version } => Question::Get {
                path: fill1(CORE_LIST_PATH, version.as_str()),
            },
            Stage::Namespace { gvr } => Question::KubeSystem { gvr: gvr.clone() },
            Stage::IdentityList { version } => Question::Get {
                path: fill1(GROUP_LIST_PATH, version.as_str()),
            },
            Stage::Review { version, gvr } => Question::Create {
                gvr: gvr.clone(),
                body: review_body(version.as_str()),
            },
            Stage::AccessList { version } => Question::Get {
                path: fill1(GROUP_LIST_PATH, version.as_str()),
            },
            Stage::Done => Question::Nothing,
        }
    }

    fn access_next(&mut self)
        ensures
            final(self)@ == behind_identity(old(self)@),
    {
        match (&self.core, &self.versions) {
            (Some(_), Some(versions)) => match access_version(versions) {
                Some(version) => {
                    self.stage = Stage::AccessList { version };
                },
                None => {
                    self.access = Availability::NotServedByCluster;
                    self.stage = Stage::Done;
                },
            },
            _ => {
                self.stage = Stage::Done;
            },
        }
    }

    fn identity_next(&mut self)
        ensures
            final(self)@ == behind_namespace(old(self)@),
    {
        match (&self.core, &self.versions) {
            (Some(_), Some(versions)) => match identity_version(versions) {
                Some(version) => {
                    self.stage = Stage::IdentityList { version };
                },
                None => {
                    self.effective = Known::Unavailable(Outcome::TypeNotServed);
                    self.access_next();
                },
            },
            _ => {
                self.effective = Known::Unavailable(Outcome::Disconnected);
                self.access_next();
            },
        }
    }

    fn namespace_next(&mut self)
        ensures
            final(self)@ == behind_documents(old(self)@),
    {
        let collection: Result<String, Outcome> = match &self.core {
            Some((core, version)) => match namespace_resource(core, version.as_str()) {
                Ok(resource) => Ok(resource.gvr.clone()),
                Err(outcome) => Err(outcome),
            },
            None => Err(Outcome::Disconnected),
        };
        match collection {
            Ok(gvr) => {
                self.stage = Stage::Namespace { gvr };
            },
            Err(outcome) => {
                self.kube_system_uid = Known::Unavailable(outcome);
                self.identity_next();
            },
        }
    }

    /// Takes the reply to the question asked: it is a probe whatever came of it, and it decides
    /// what is asked next. Where nothing was asked, it is a probe and nothing more.
    pub fn answered(
        &mut self,
        method: &str,
        path: &str,
        reply: Reply,
        latency: u128,
        read: Reading,
    )
        ensures
            final(self)@ == after_answer(
                (InterrogationView {
                    health: old(self)@.health.push(probed(method@, path@, reply, latency)),
                    ..old(self)@
                }),
                answer_of(reply),
                read@,
            ),
    {
        let answer: Answer = self.health.asked(method, path, reply, latency);
        let mut stage: Stage = Stage::Done;
        std::mem::swap(&mut stage, &mut self.stage);
        match stage {
            Stage::Version => {
                let version: Option<String> = match read {
                    Reading::Version(version) => Some(version),
                    _ => None,
                };
                self.version = server_version(&answer, version);
                self.stage = Stage::CoreVersions;
            },
            Stage::CoreVersions => {
                self.stage = Stage::CoreVersions;
                match text(answer) {
                    Some(_) => {
                        self.stage = Stage::Groups;
                    },
                    None => self.namespace_next(),
                }
            },
            Stage::Groups => {
                self.stage = Stage::Groups;
                match documents(answer, read) {
                    Some(versions) => {
                        let core: Option<String> = match versions.preferred_version("") {
                            Some(version) => Some(version.to_owned()),
                            None => None,
                        };
                        self.versions = Some(versions);
                        match core {
                            Some(version) => {
                                self.stage = Stage::CoreResources { version };
                            },
                            None => self.namespace_next(),
                        }
                    },
                    None => self.namespace_next(),
                }
            },
            Stage::CoreResources { version } => {
                match documents(answer, read) {
                    Some(core) => {
                        self.stage = Stage::CoreResources { version: version.clone() };
                        self.core = Some((core, version));
                        self.namespace_next();
                    },
                    None => {
                        self.stage = Stage::CoreResources { version };
                        self.namespace_next();
                    },
                }
            },
            Stage::Namespace { gvr } => {
                self.stage = Stage::Namespace { gvr };
                self.kube_system_uid = kube_system_uid(&answer);
                self.identity_next();
            },
            Stage::IdentityList { version } => {
                let list: Option<Discovery> = documents(answer, read);
                let collection: Result<String, Outcome> = match identity_resource(
                    &list,
                    version.as_str(),
                ) {
                    Ok(resource) => Ok(resource.gvr.clone()),
                    Err(outcome) => Err(outcome),
                };
                match collection {
                    Ok(gvr) => {
                        self.stage = Stage::Review { version, gvr };
                    },
                    Err(outcome) => {
                        self.stage = Stage::IdentityList { version };
                        self.effective = Known::Unavailable(outcome);
                        self.access_next();
                    },
                }
            },
            Stage::Review { version, gvr } => {
                self.stage = Stage::Review { version, gvr };
                let subject: Option<Subject> = match read {
                    Reading::Subject(subject) => Some(subject),
                    _ => None,
                };
                self.effective = effective_identity(&answer, subject);
                self.access_next();
            },
            Stage::AccessList { .. } => {
                let words: Option<String> = match read {
                    Reading::Offered(words) => Some(words),
                    _ => None,
                };
                self.access = access_review(Some(answer), words);
                self.stage = Stage::Done;
            },
            Stage::Done => {},
        }
    }

    /// What was learnt, once everything was asked. What the core group offers counts only where its
    /// collections were read.
    pub fn observed(self, origin: &str, offers: Offers, relations: Grant) -> (r: Observed)
        ensures
            r.version@ == self@.version,
            r.health == self.health,
            r.fingerprint.origin@ == Known::Obtained(origin@),
            r.fingerprint.server_public_key@ == Known::<Seq<char>>::Unavailable(
                Outcome::NotQueried,
            ),
            r.fingerprint.kube_system_uid@ == self@.kube_system_uid,
            r.identity.credential@ == self@.effective,
            r.identity.effective@ == self@.effective,
            r.identity.impersonated is None,
            r.capabilities.otherwise is None,
            stated_views(r.capabilities.stated@) == capabilities_found(
                match self.core {
                    Some(_) => Some(
                        Offered {
                            watch: offers.watch,
                            mutations: offers.mutations,
                            remote_logs: offers.remote_logs,
                            access_review: self.access,
                        },
                    ),
                    None => None,
                },
                relations,
            ),
    {
        let offered: Option<Offered> = match self.core {
            Some(_) => Some(
                Offered {
                    watch: offers.watch,
                    mutations: offers.mutations,
                    remote_logs: offers.remote_logs,
                    access_review: self.access,
                },
            ),
            None => None,
        };
        Observed {
            version: self.version,
            health: self.health,
            fingerprint: fingerprint(origin, self.kube_system_uid),
            identity: identity(self.effective),
            capabilities: capabilities(offered, relations),
        }
    }
}

/// The documents a reading of a reply is, where the reply carried text.
fn documents(answer: Answer, read: Reading) -> (r: Option<Discovery>)
    ensures
        r == documents_read(answer@, read@),
{
    match read {
        Reading::Documents(documents) => match text(answer) {
            Some(_) => Some(documents),
            None => None,
        },
        _ => None,
    }
}

// --- laws -----------------------------------------------------------------------------------------

/// How far an interrogation has come.
pub open spec fn progress(stage: StageView) -> int {
    match stage {
        StageView::Version => 0,
        StageView::CoreVersions => 1,
        StageView::Groups => 2,
        StageView::CoreResources { .. } => 3,
        StageView::Namespace { .. } => 4,
        StageView::IdentityList { .. } => 5,
        StageView::Review { .. } => 6,
        StageView::AccessList { .. } => 7,
        StageView::Done => 8,
    }
}

/// Every reply moves the interrogation on, whatever it is: nothing is asked twice, and what fails
/// keeps nothing from ending it.
pub proof fn every_reply_moves_on(state: InterrogationView, answer: AnswerView, read: ReadingView)
    requires
        !(state.stage is Done),
    ensures
        progress(after_answer(state, answer, read).stage) > progress(state.stage),
{
}

/// What is known after some replies.
pub open spec fn after_answers(
    state: InterrogationView,
    replies: Seq<(AnswerView, ReadingView)>,
) -> InterrogationView
    decreases replies.len(),
{
    if replies.len() == 0 {
        state
    } else {
        after_answers(after_answer(state, replies[0].0, replies[0].1), replies.skip(1))
    }
}

/// A diagnostic always ends: after as many replies as there are questions nothing more is asked,
/// whatever the replies are.
pub proof fn a_diagnostic_ends(
    state: InterrogationView,
    replies: Seq<(AnswerView, ReadingView)>,
)
    requires
        replies.len() + progress(state.stage) >= 8,
    ensures
        after_answers(state, replies).stage is Done,
    decreases replies.len(),
{
    if replies.len() > 0 {
        let next = after_answer(state, replies[0].0, replies[0].1);
        if state.stage is Done {
            assert(next == state);
        } else {
            every_reply_moves_on(state, replies[0].0, replies[0].1);
        }
        a_diagnostic_ends(next, replies.skip(1));
    }
}

/// A version that was refused does not keep the rest from being asked, and an identity that was
/// refused blocks nothing behind it.
pub proof fn a_refusal_blocks_nothing(
    state: InterrogationView,
    answer: AnswerView,
    read: ReadingView,
)
    requires
        !(answer is Body),
    ensures
        state.stage is Version ==> after_answer(state, answer, read).stage is CoreVersions,
        state.stage is Namespace && state.core is Some && state.versions is Some
            && identity_served(state.versions->Some_0) is Some ==> after_answer(
            state,
            answer,
            read,
        ).stage is IdentityList,
        state.stage is Review && state.core is Some && state.versions is Some && access_served(
            state.versions->Some_0,
        ) is Some ==> after_answer(state, answer, read).stage is AccessList,
{
}

/// Where the discovery documents did not read, no path is guessed: nothing more is asked.
pub proof fn no_path_is_guessed(state: InterrogationView, answer: AnswerView, read: ReadingView)
    requires
        state.stage is CoreVersions || state.stage is Groups,
        state.core is None,
        text_of_answer(answer) is None,
    ensures
        after_answer(state, answer, read).stage is Done,
        after_answer(state, answer, read).kube_system_uid == Known::<Seq<char>>::Unavailable(
            Outcome::Disconnected,
        ),
        after_answer(state, answer, read).effective == Known::<SubjectView>::Unavailable(
            Outcome::Disconnected,
        ),
{
}

}
