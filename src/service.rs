//! What each inbound event leads to: the presence to send, whether the idle
//! timer restarts, and what the idle timer shows once it expires.
use vstd::prelude::*;
use crate::activity::{
    deref_doc, placeholders_for, resolved, templates_for, ActivityFields, ActivityManager,
};
use crate::config::{Configuration, IdleAction};
use crate::connection::{kill_plan, ConnectionManager, KillPlan};
use crate::document::Document;
use crate::languages::LanguageTable;
use crate::placeholders::Placeholders;

verus! {

/// The repository URL to link to: the known one where git integration is
/// on, none otherwise.
pub fn git_url_if_enabled(config: &Configuration, git_remote_url: Option<String>) -> (r: Option<
    String,
>)
    ensures
        r == if config.git_integration {
            git_remote_url
        } else {
            None
        },
{
    if config.git_integration {
        git_remote_url
    } else {
        None
    }
}

/// The outcome of an editor event.
#[derive(Debug)]
pub struct PresenceUpdate {
    /// The fields to send.
    pub fields: ActivityFields,
    /// The repository to link to.
    pub git_url: Option<String>,
    /// Whether the idle timer restarts.
    pub reset_idle: bool,
}

/// What the idle timer shows once it expires.
#[derive(Debug)]
pub enum IdlePresentation {
    /// Remove the presence.
    Clear,
    /// Send these fields, linking to this repository.
    Change(ActivityFields, Option<String>),
}

/// Turns editor events and idle expiries into what to send.
#[derive(Debug, Clone, Copy)]
pub struct PresenceService;

impl PresenceService {
    /// The presence for an event about `doc` (or about no document): the
    /// fields for its templates, the repository link where git integration
    /// is on, and an idle restart exactly when there is a document.
    pub fn update_presence(
        doc: Option<&Document>,
        config: &Configuration,
        workspace: &str,
        git_branch: Option<String>,
        git_remote_url: Option<String>,
        languages: &LanguageTable,
    ) -> (r: PresenceUpdate)
        ensures
            r.reset_idle == doc is Some,
            r.git_url == if config.git_integration {
                git_remote_url
            } else {
                None
            },
            exists|p: Placeholders|
                #![trigger resolved(templates_for(deref_doc(doc), *config, *languages), p)]
                r.fields@ == resolved(templates_for(deref_doc(doc), *config, *languages), p)
                    && placeholders_for(p, deref_doc(doc), *config, workspace@, git_branch, *languages),
    {
        let fields = ActivityManager::build_activity_fields(
            doc,
            config,
            workspace,
            git_branch,
            languages,
        );
        let git_url = git_url_if_enabled(config, git_remote_url);
        PresenceUpdate { fields, git_url, reset_idle: doc.is_some() }
    }

    /// What an expired idle timer shows: nothing where the idle action
    /// clears, else the idle templates about the last document, linking to
    /// the repository where git integration is on.
    pub fn idle_presentation(
        last_doc: Option<&Document>,
        config: &Configuration,
        workspace: &str,
        git_branch: Option<String>,
        git_remote_url: Option<String>,
        languages: &LanguageTable,
    ) -> (r: IdlePresentation)
        ensures
            config.idle.action == IdleAction::ClearActivity ==> r is Clear,
            config.idle.action == IdleAction::ChangeActivity ==> (r matches IdlePresentation::Change(
                fields,
                url,
            ) && url == (if config.git_integration {
                git_remote_url
            } else {
                None
            }) && exists|p: Placeholders|
                #![trigger resolved(config.idle.templates(), p)]
                fields@ == resolved(config.idle.templates(), p) && placeholders_for(
                    p,
                    deref_doc(last_doc),
                    *config,
                    workspace@,
                    git_branch,
                    *languages,
                )),
    {
        match config.idle.action {
            IdleAction::ClearActivity => IdlePresentation::Clear,
            IdleAction::ChangeActivity => {
                let fields = ActivityManager::build_idle_activity_fields(
                    last_doc,
                    config,
                    workspace,
                    git_branch,
                    languages,
                );
                IdlePresentation::Change(fields, git_url_if_enabled(config, git_remote_url))
            },
        }
    }

    /// What shutting down takes. Shutdown never fails: where there is no
    /// client, or the connection is already closed, there is nothing to do.
    pub fn shutdown(connection: &ConnectionManager) -> (r: bool)
        ensures
            r == (kill_plan(connection.state) == KillPlan::Close),
    {
        match connection.kill() {
            KillPlan::Close => true,
            _ => false,
        }
    }
}

} // verus!
