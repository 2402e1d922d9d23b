//! What is not waited for changes nothing, in every exchange with the outside.
use crate::add_extension::{add_step, AddActionView, AddEventView, AddExtensionView, AddPhase};
use crate::configure_extensions::{
    dialog_step, ConfigureExtensionsDialogView, DialogActionView, DialogAnswerView,
    ExtensionQuestion,
};
use crate::configure_provider::{
    provider_step, ConfigureProviderDialogView, ProviderActionView, ProviderEventView,
    ProviderPhase,
};
use crate::configure_settings::{
    permission_step, PermissionActionView, PermissionEventView, PermissionPhase,
    ToolPermissionsDialogView,
};
use crate::manage_extensions::{
    manage_step, ManageActionView, ManageEventView, ManageExtensionView, ManagePhase,
};
use crate::provider_login::{
    login_step, LoginActionView, LoginEventView, LoginPhase, ProviderLoginView,
};
use crate::session_builder::{
    build_step, BuildActionView, BuildEventView, BuildPhase, BuildSessionView,
};
use vstd::prelude::*;

verus! {

/// What setting up a session waits for.
pub open spec fn build_waits_for(p: BuildPhase, e: BuildEventView) -> bool {
    match p {
        BuildPhase::ModelCreating | BuildPhase::ProviderCreating | BuildPhase::AgentInitializing => e
            is Done || e is Failed,
        BuildPhase::SessionFinding => e is Found,
        BuildPhase::SessionListing => e is Sessions,
        BuildPhase::SessionCreating => e is Created,
        BuildPhase::MetadataReading => e is Metadata || e is Failed,
        BuildPhase::DirectoryConfirming => e is Confirmed,
        BuildPhase::DirectorySwitching => e is Done || e is DirectoryMissing || e is Failed,
        BuildPhase::SavedReading => e is Saved,
        BuildPhase::ExtensionsReading => e is Extensions,
        BuildPhase::ReaddConfirming => e is Confirmed,
        BuildPhase::ExtensionsStarting => e is Started || e is AllStarted,
        BuildPhase::DebugOffering => e is Done,
        BuildPhase::ExtraAdding => e is Done || e is Failed,
        BuildPhase::ExtraDebugOffering => e is Done,
        BuildPhase::StateSaving => e is Done || e is Failed,
        BuildPhase::Finished => false,
    }
}

/// While a session is set up, nothing but what is waited for counts.
pub proof fn law_build_waits(s: BuildSessionView, e: BuildEventView)
    ensures
        !build_waits_for(s.phase, e) ==> build_step(s, e) == (
            s,
            Seq::<BuildActionView>::empty(),
        ),
{
}

/// While a session is set up, what was asked for and the provider and the model stay.
#[verifier::spinoff_prover]
#[verifier::rlimit(60)]
pub proof fn law_build_keeps_what_was_asked(s: BuildSessionView, e: BuildEventView)
    ensures
        build_step(s, e).0.config == s.config,
        build_step(s, e).0.provider_name == s.provider_name,
        build_step(s, e).0.model_name == s.model_name,
{
}

/// What connecting an extension waits for. A failure can come at any time before the end.
pub open spec fn add_waits_for(p: AddPhase, e: AddEventView) -> bool {
    match p {
        AddPhase::SecretWanted => e is Secret || e is Failed,
        AddPhase::CommandChecked => e is CommandAllowed || e is Failed,
        AddPhase::ExecutableWanted => e is Executable || e is Failed,
        AddPhase::ScriptWanted => e is Script || e is Failed,
        AddPhase::HttpConnecting => e is HttpClientUnavailable || e is AuthorizationRequired || e
            is Connected || e is Failed,
        AddPhase::Authorizing => e is Authorized || e is AuthorizationFailed || e is Failed,
        AddPhase::Connecting => e is Connected || e is Failed,
        AddPhase::Closed => false,
    }
}

/// While an extension is connected, nothing but what is waited for counts.
pub proof fn law_add_waits(s: AddExtensionView, e: AddEventView)
    ensures
        !add_waits_for(s.phase, e) ==> add_step(s, e) == (s, AddActionView::Wait),
{
}

/// What managing an extension waits for.
pub open spec fn manage_waits_for(p: ManagePhase, e: ManageEventView) -> bool {
    match p {
        ManagePhase::RouterWanted | ManagePhase::RouterWantedAgain => e is Router,
        ManagePhase::IndexUpdating | ManagePhase::IndexUpdatingAgain => e is IndexUpdated,
        ManagePhase::Removing => e is Removed,
        ManagePhase::ConfigWanted => e is Config,
        ManagePhase::Adding => e is Added,
        ManagePhase::Closed => false,
    }
}

/// While an extension is managed, nothing but what is waited for counts, and what is
/// waited for always leads on.
pub proof fn law_manage_waits(s: ManageExtensionView, e: ManageEventView)
    ensures
        !manage_waits_for(s.phase, e) ==> manage_step(s, e) == (s, ManageActionView::Wait),
        manage_waits_for(s.phase, e) ==> !(manage_step(s, e).1 is Wait),
{
}

/// What the dialog for a new extension waits for.
pub open spec fn dialog_waits_for(q: ExtensionQuestion, a: DialogAnswerView) -> bool {
    match q {
        ExtensionQuestion::Kind | ExtensionQuestion::Builtin => a is Choice,
        ExtensionQuestion::Name | ExtensionQuestion::Target | ExtensionQuestion::Timeout
        | ExtensionQuestion::Description | ExtensionQuestion::HeaderName
        | ExtensionQuestion::HeaderValue | ExtensionQuestion::EnvName
        | ExtensionQuestion::EnvValue => a is Text,
        ExtensionQuestion::AddHeaders | ExtensionQuestion::AnotherHeader
        | ExtensionQuestion::AddEnvs | ExtensionQuestion::AnotherEnv => a is Confirmed,
        ExtensionQuestion::Storing => a is Stored,
        ExtensionQuestion::Finished => false,
    }
}

/// In the dialog for a new extension, an answer that does not fit the question changes
/// nothing, and the names that are taken stay.
pub proof fn law_dialog_waits(s: ConfigureExtensionsDialogView, a: DialogAnswerView)
    ensures
        !dialog_waits_for(s.question, a) ==> dialog_step(s, a) == (s, DialogActionView::Nothing),
        dialog_step(s, a).0.names == s.names,
{
}

/// What the dialog for a provider waits for.
pub open spec fn provider_waits_for(p: ProviderPhase, e: ProviderEventView) -> bool {
    match p {
        ProviderPhase::Choosing => e is Chosen,
        ProviderPhase::EnvReading => e is Env,
        ProviderPhase::EnvConfirming | ProviderPhase::UpdateConfirming => e is Confirmed,
        ProviderPhase::EnvSaving | ProviderPhase::SigningIn | ProviderPhase::ValueSaving => e
            is Done,
        ProviderPhase::StoredReading => e is Stored,
        ProviderPhase::ValueAsking => e is Text,
        ProviderPhase::ModelsFetching => e is Models || e is FetchFailed,
        ProviderPhase::ModelChoosing | ProviderPhase::ModelTyping => e is ModelChosen,
        ProviderPhase::Testing => e is Done || e is TestFailed,
        ProviderPhase::Finished => false,
    }
}

/// In the dialog for a provider, nothing but what is waited for counts.
pub proof fn law_provider_waits(s: ConfigureProviderDialogView, e: ProviderEventView)
    ensures
        !provider_waits_for(s.phase, e) ==> provider_step(s, e) == (
            s,
            Seq::<ProviderActionView>::empty(),
        ),
{
}

/// What the dialog for permissions waits for.
pub open spec fn permission_waits_for(p: PermissionPhase, e: PermissionEventView) -> bool {
    match p {
        PermissionPhase::ExtensionChoosing | PermissionPhase::ToolChoosing
        | PermissionPhase::LevelChoosing => e is Chosen,
        PermissionPhase::AgentCreating | PermissionPhase::ExtensionAdding => e is Done,
        PermissionPhase::ToolsListing => e is Tools,
        PermissionPhase::Finished => false,
    }
}

/// In the dialog for permissions, nothing but what is waited for counts.
pub proof fn law_permission_dialog_waits(s: ToolPermissionsDialogView, e: PermissionEventView)
    ensures
        !permission_waits_for(s.phase, e) ==> permission_step(s, e) == (
            s,
            Seq::<PermissionActionView>::empty(),
        ),
{
}

/// What a login waits for.
pub open spec fn login_waits_for(p: LoginPhase, e: LoginEventView) -> bool {
    match p {
        LoginPhase::ModelReading => e is Model || e is Failed,
        LoginPhase::ExtensionsReading => e is Extensions,
        LoginPhase::Finished => false,
        _ => e is Done || e is Failed,
    }
}

/// While the user logs in, nothing but what is waited for counts, and what is waited for
/// always leads on; the service stays.
pub proof fn law_login_waits(s: ProviderLoginView, e: LoginEventView)
    ensures
        !login_waits_for(s.phase, e) ==> login_step(s, e) == (s, Seq::<LoginActionView>::empty()),
        login_waits_for(s.phase, e) ==> login_step(s, e).1.len() > 0,
        login_step(s, e).0.service == s.service,
{
}

} // verus!
