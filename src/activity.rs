//! Resolution of the six presence fields from templates and placeholders.
use vstd::prelude::*;
use crate::config::{clone_opt, opt_view, ActivityView, Configuration, table_index_from, table_view};
use crate::document::{
    doc_extension, file_name_of, last_segment, parent_part, relative_to, url_decoded, Document,
};
use crate::languages::{classified_name, classify, get_language, LanguageTable};
use crate::placeholders::{render, Placeholders};
use crate::text::{lower_of, lowercase};

verus! {

/// The resolved fields of a presence.
#[derive(Debug)]
pub struct ActivityFields {
    pub state: Option<String>,
    pub details: Option<String>,
    pub large_image: Option<String>,
    pub large_text: Option<String>,
    pub small_image: Option<String>,
    pub small_text: Option<String>,
}

impl View for ActivityFields {
    type V = ActivityView;

    open spec fn view(&self) -> ActivityView {
        ActivityView {
            state: opt_view(self.state),
            details: opt_view(self.details),
            large_image: opt_view(self.large_image),
            large_text: opt_view(self.large_text),
            small_image: opt_view(self.small_image),
            small_text: opt_view(self.small_text),
        }
    }
}

/// A template expanded under `p`, where there is one.
pub open spec fn render_opt(p: Placeholders, t: Option<Seq<char>>) -> Option<Seq<char>> {
    match t {
        Some(s) => Some(render(p, s)),
        None => None,
    }
}

/// Every template of `a` expanded under `p`.
pub open spec fn resolved(a: ActivityView, p: Placeholders) -> ActivityView {
    ActivityView {
        state: render_opt(p, a.state),
        details: render_opt(p, a.details),
        large_image: render_opt(p, a.large_image),
        large_text: render_opt(p, a.large_text),
        small_image: render_opt(p, a.small_image),
        small_text: render_opt(p, a.small_text),
    }
}

fn replace_opt(t: Option<String>, p: &Placeholders) -> (r: Option<String>)
    ensures
        opt_view(r) == render_opt(*p, opt_view(t)),
{
    match t {
        Some(s) => Some(p.replace(s.as_str())),
        None => None,
    }
}

impl ActivityFields {
    /// Fields holding copies of the given templates.
    pub fn new(
        state: &Option<String>,
        details: &Option<String>,
        large_image: &Option<String>,
        large_text: &Option<String>,
        small_image: &Option<String>,
        small_text: &Option<String>,
    ) -> (r: ActivityFields)
        ensures
            r@ == (ActivityView {
                state: opt_view(*state),
                details: opt_view(*details),
                large_image: opt_view(*large_image),
                large_text: opt_view(*large_text),
                small_image: opt_view(*small_image),
                small_text: opt_view(*small_text),
            }),
    {
        ActivityFields {
            state: clone_opt(state),
            details: clone_opt(details),
            large_image: clone_opt(large_image),
            large_text: clone_opt(large_text),
            small_image: clone_opt(small_image),
            small_text: clone_opt(small_text),
        }
    }

    /// Every field expanded under `placeholders`.
    pub fn resolve_placeholders(self, placeholders: &Placeholders) -> (r: ActivityFields)
        ensures
            r@ == resolved(self@, *placeholders),
    {
        ActivityFields {
            state: replace_opt(self.state, placeholders),
            details: replace_opt(self.details, placeholders),
            large_image: replace_opt(self.large_image, placeholders),
            large_text: replace_opt(self.large_text, placeholders),
            small_image: replace_opt(self.small_image, placeholders),
            small_text: replace_opt(self.small_text, placeholders),
        }
    }

    /// The fields in the order state, details, large image, large text,
    /// small image, small text.
    pub fn into_tuple(self) -> (r: (
        Option<String>,
        Option<String>,
        Option<String>,
        Option<String>,
        Option<String>,
        Option<String>,
    ))
        ensures
            r == (self.state, self.details, self.large_image, self.large_text, self.small_image,
            self.small_text),
    {
        (self.state, self.details, self.large_image, self.large_text, self.small_image, self.small_text)
    }
}

/// What a failed path query leaves: nothing.
fn ok_or_none(r: Result<String, crate::error::PresenceError>) -> (o: Option<String>)
    ensures
        match r {
            Ok(v) => o == Some(v),
            Err(_) => o is None,
        },
{
    match r {
        Ok(v) => Some(v),
        Err(_) => None,
    }
}

/// The text `<directory>/<file>` for a document, where both decode.
pub open spec fn folder_and_file_of(path: Seq<char>) -> Option<Seq<char>> {
    match (url_decoded(last_segment(parent_part(path))), file_name_of(path)) {
        (Some(d), Some(f)) => match url_decoded(f) {
            Some(fv) => Some(d + seq!['/'] + fv),
            None => None,
        },
        _ => None,
    }
}

/// The language a document is classified as.
pub open spec fn language_of(t: LanguageTable, d: Document) -> Seq<char> {
    classify(t.entries@, classified_name(d.path@), seq!['.'] + doc_extension(d.path@))
}

/// The document a reference points to, where there is one.
pub open spec fn deref_doc(doc: Option<&Document>) -> Option<Document> {
    match doc {
        Some(d) => Some(*d),
        None => None,
    }
}

/// Whether `p` holds the values for templates about `doc` (or about no
/// document) in the workspace named `workspace`.
pub open spec fn placeholders_for(
    p: Placeholders,
    doc: Option<Document>,
    config: Configuration,
    workspace: Seq<char>,
    git_branch: Option<String>,
    languages: LanguageTable,
) -> bool {
    &&& p.workspace@ == workspace
    &&& p.base_icons_url@ == config.base_icons_url@
    &&& p.git_branch == git_branch
    &&& match doc {
        None => p.filename is None && p.language is None && p.relative_file_path is None
            && p.folder_and_file is None && p.directory_name is None
            && p.full_directory_name is None && p.line_number is None && p.file_size is None,
        Some(d) => opt_view(p.filename) == Some(classified_name(d.path@)) && opt_view(p.language)
            == Some(language_of(languages, d)) && opt_view(p.relative_file_path) == match relative_to(
            d.path@,
            d.workspace_root@,
        ) {
            Some(rel) => url_decoded(rel),
            None => None,
        } && opt_view(p.folder_and_file) == folder_and_file_of(d.path@) && opt_view(
            p.directory_name,
        ) == url_decoded(last_segment(parent_part(d.path@))) && opt_view(p.full_directory_name)
            == url_decoded(parent_part(d.path@)) && p.line_number == d.line_number && p.file_size
            == d.file_size,
    }
}

impl Placeholders {
    /// The values for templates about `doc` (or about no document) in the
    /// workspace named `workspace`.
    pub fn new(
        doc: Option<&Document>,
        config: &Configuration,
        workspace: &str,
        git_branch: Option<String>,
        languages: &LanguageTable,
    ) -> (r: Placeholders)
        ensures
            placeholders_for(r, deref_doc(doc), *config, workspace@, git_branch, *languages),
    {
        match doc {
            None => Placeholders {
                filename: None,
                workspace: String::from_str(workspace),
                language: None,
                base_icons_url: config.base_icons_url.clone(),
                relative_file_path: None,
                folder_and_file: None,
                directory_name: None,
                full_directory_name: None,
                line_number: None,
                git_branch,
                file_size: None,
            },
            Some(d) => {
                let filename = match d.get_filename() {
                    Ok(f) => f,
                    Err(_) => String::from_str("unknown"),
                };
                let directory_name = ok_or_none(d.get_directory_name());
                let folder_and_file = match (&directory_name, d.get_filename()) {
                    (Some(dir), Ok(f)) => {
                        proof {
                            reveal_strlit("/");
                        }
                        assert("/"@ =~= seq!['/']);
                        Some(dir.clone().concat("/").concat(f.as_str()))
                    },
                    _ => None,
                };
                Placeholders {
                    filename: Some(filename),
                    workspace: String::from_str(workspace),
                    language: Some(get_language(languages, d)),
                    base_icons_url: config.base_icons_url.clone(),
                    relative_file_path: ok_or_none(d.get_relative_path()),
                    folder_and_file,
                    directory_name,
                    full_directory_name: ok_or_none(d.get_full_directory_name()),
                    line_number: d.line_number,
                    git_branch,
                    file_size: d.file_size,
                }
            },
        }
    }
}

/// The templates that apply to `doc`: those of its lowercased language
/// where the configuration has them, the general ones otherwise (and
/// always where there is no document).
pub open spec fn templates_for(
    doc: Option<Document>,
    config: Configuration,
    languages: LanguageTable,
) -> ActivityView {
    match doc {
        Some(d) => match table_index_from(
            table_view(config.languages@),
            lower_of(language_of(languages, d)),
            0,
        ) {
            Some(i) => table_view(config.languages@)[i].1,
            None => config.activity@,
        },
        None => config.activity@,
    }
}

/// Builds presence fields from the configuration.
#[derive(Debug, Clone, Copy)]
pub struct ActivityManager;

impl ActivityManager {
    /// The fields shown while `doc` is edited: the templates that apply to
    /// it, expanded under its placeholders.
    pub fn build_activity_fields(
        doc: Option<&Document>,
        config: &Configuration,
        workspace: &str,
        git_branch: Option<String>,
        languages: &LanguageTable,
    ) -> (r: ActivityFields)
        ensures
            exists|p: Placeholders|
                #![trigger resolved(templates_for(deref_doc(doc), *config, *languages), p)]
                r@ == resolved(templates_for(deref_doc(doc), *config, *languages), p)
                    && placeholders_for(p, deref_doc(doc), *config, workspace@, git_branch, *languages),
    {
        let placeholders = Placeholders::new(doc, config, workspace, git_branch, languages);
        let activity = match doc {
            Some(d) => {
                let language = lowercase(get_language(languages, d).as_str());
                config.activity_for(language.as_str())
            },
            None => &config.activity,
        };
        ActivityFields::new(
            &activity.state,
            &activity.details,
            &activity.large_image,
            &activity.large_text,
            &activity.small_image,
            &activity.small_text,
        ).resolve_placeholders(&placeholders)
    }

    /// The fields shown once idle: the idle templates, expanded under the
    /// placeholders of the last document (or of none).
    pub fn build_idle_activity_fields(
        doc: Option<&Document>,
        config: &Configuration,
        workspace: &str,
        git_branch: Option<String>,
        languages: &LanguageTable,
    ) -> (r: ActivityFields)
        ensures
            exists|p: Placeholders|
                #![trigger resolved(config.idle.templates(), p)]
                r@ == resolved(config.idle.templates(), p) && placeholders_for(
                    p,
                    deref_doc(doc),
                    *config,
                    workspace@,
                    git_branch,
                    *languages,
                ),
    {
        let placeholders = Placeholders::new(doc, config, workspace, git_branch, languages);
        ActivityFields::new(
            &config.idle.state,
            &config.idle.details,
            &config.idle.large_image,
            &config.idle.large_text,
            &config.idle.small_image,
            &config.idle.small_text,
        ).resolve_placeholders(&placeholders)
    }
}

} // verus!
