//! User configuration and the composition of the presence payload from it.
use vstd::prelude::*;
use vstd::string::StringExecFns;
use crate::language::LanguageInfo;
use crate::path::{join_path, joined};
use crate::text::{chars_of, push_char, text_of};

verus! {

broadcast use vstd::string::group_string_axioms;

pub const FILENAME_TOKEN: &'static str = "{filename}";
pub const WORKSPACE_TOKEN: &'static str = "{workspace}";
pub const LANGUAGE_TOKEN: &'static str = "{language}";
pub const EDITOR_TOKEN: &'static str = "{editor}";

/// Whether `t` begins with the non-empty text `tok`.
pub open spec fn begins_with(t: Seq<char>, tok: Seq<char>) -> bool {
    0 < tok.len() <= t.len() && t.subrange(0, tok.len() as int) == tok
}

/// Single-pass substitution of the four placeholders of a template by their
/// values: the text put in is never searched again, and any other text,
/// unknown `{...}` tokens included, is kept as it stands.
pub open spec fn substitute(
    t: Seq<char>,
    filename: Seq<char>,
    workspace: Seq<char>,
    language: Seq<char>,
    editor: Seq<char>,
) -> Seq<char>
    decreases t.len(),
{
    if t.len() == 0 {
        t
    } else if begins_with(t, FILENAME_TOKEN@) {
        filename + substitute(t.skip(FILENAME_TOKEN@.len() as int), filename, workspace, language, editor)
    } else if begins_with(t, WORKSPACE_TOKEN@) {
        workspace + substitute(t.skip(WORKSPACE_TOKEN@.len() as int), filename, workspace, language, editor)
    } else if begins_with(t, LANGUAGE_TOKEN@) {
        language + substitute(t.skip(LANGUAGE_TOKEN@.len() as int), filename, workspace, language, editor)
    } else if begins_with(t, EDITOR_TOKEN@) {
        editor + substitute(t.skip(EDITOR_TOKEN@.len() as int), filename, workspace, language, editor)
    } else {
        seq![t[0]] + substitute(t.skip(1), filename, workspace, language, editor)
    }
}

/// Whether one of the placeholders begins at index `j` of `t`.
pub open spec fn placeholder_at(t: Seq<char>, j: int) -> bool {
    let rest = t.skip(j);
    begins_with(rest, FILENAME_TOKEN@) || begins_with(rest, WORKSPACE_TOKEN@) || begins_with(
        rest,
        LANGUAGE_TOKEN@,
    ) || begins_with(rest, EDITOR_TOKEN@)
}

/// Whether `v[i..]` begins with `tok`.
fn text_at(v: &Vec<char>, i: usize, tok: &str) -> (r: bool)
    requires
        i <= v.len(),
    ensures
        r == begins_with(v@.skip(i as int), tok@),
{
    let n = tok.unicode_len();
    if n == 0 || n > v.len() - i {
        return false;
    }
    let mut k: usize = 0;
    while k < n
        invariant
            n == tok@.len(),
            0 < n <= v.len() - i,
            k <= n,
            forall|j: int| 0 <= j < k ==> v@[i + j] == tok@[j],
        decreases n - k,
    {
        if v[i + k] != tok.get_char(k) {
            assert(v@.skip(i as int).subrange(0, n as int)[k as int] != tok@[k as int]);
            return false;
        }
        k += 1;
    }
    assert(v@.skip(i as int).subrange(0, n as int) =~= tok@);
    true
}

/// Replaces each placeholder of `text` by its value, in a single pass.
pub fn replace_placeholders(
    text: &str,
    filename: &str,
    workspace: &str,
    language: &LanguageInfo,
    editor: &str,
) -> (r: String)
    ensures
        r@ == substitute(text@, filename@, workspace@, language.name@, editor@),
{
    let v = chars_of(text);
    let ghost full = substitute(v@, filename@, workspace@, language.name@, editor@);
    let mut out = String::new();
    let mut i: usize = 0;
    assert(v@.skip(0) =~= v@);
    while i < v.len()
        invariant
            i <= v.len(),
            v@ == text@,
            out@ + substitute(v@.skip(i as int), filename@, workspace@, language.name@, editor@)
                == full,
        decreases v.len() - i,
    {
        let ghost rest = v@.skip(i as int);
        let ghost old_out = out@;
        if text_at(&v, i, FILENAME_TOKEN) {
            out.append(filename);
            i += FILENAME_TOKEN.unicode_len();
        } else if text_at(&v, i, WORKSPACE_TOKEN) {
            out.append(workspace);
            i += WORKSPACE_TOKEN.unicode_len();
        } else if text_at(&v, i, LANGUAGE_TOKEN) {
            out.append(language.name.as_str());
            i += LANGUAGE_TOKEN.unicode_len();
        } else if text_at(&v, i, EDITOR_TOKEN) {
            out.append(editor);
            i += EDITOR_TOKEN.unicode_len();
        } else {
            push_char(&mut out, v[i]);
            i += 1;
        }
        assert(rest.skip((i - (v@.len() - rest.len())) as int) =~= v@.skip(i as int));
        assert(out@ + substitute(v@.skip(i as int), filename@, workspace@, language.name@, editor@)
            =~= old_out + substitute(rest, filename@, workspace@, language.name@, editor@));
    }
    assert(substitute(v@.skip(i as int), filename@, workspace@, language.name@, editor@) =~= Seq::<
        char,
    >::empty());
    assert(out@ =~= full);
    out
}

/// A template with no placeholder in it comes out of substitution unchanged,
/// whatever the values, so that substituting it again changes nothing either.
pub proof fn lemma_substitute_without_placeholders(
    t: Seq<char>,
    filename: Seq<char>,
    workspace: Seq<char>,
    language: Seq<char>,
    editor: Seq<char>,
)
    requires
        forall|j: int| 0 <= j < t.len() ==> !placeholder_at(t, j),
    ensures
        substitute(t, filename, workspace, language, editor) == t,
        substitute(substitute(t, filename, workspace, language, editor), filename, workspace, language, editor) == t,
    decreases t.len(),
{
    if t.len() > 0 {
        assert(t.skip(0) =~= t);
        assert(!placeholder_at(t, 0));
        let u = t.skip(1);
        assert forall|j: int| 0 <= j < u.len() implies !placeholder_at(u, j) by {
            assert(u.skip(j) =~= t.skip(j + 1));
            assert(!placeholder_at(t, j + 1));
        }
        lemma_substitute_without_placeholders(u, filename, workspace, language, editor);
        assert(seq![t[0]] + u =~= t);
    }
}

/// How the time of a session is tracked: restarted on each file, or kept
/// while the workspace stays the same.
#[derive(Debug, Clone, Copy, PartialEq, Eq, Structural)]
pub enum TimeTracking {
    File,
    Workspace,
}

impl Default for TimeTracking {
    fn default() -> (r: Self)
        ensures
            r == TimeTracking::File,
    {
        TimeTracking::File
    }
}

/// The `activity` section of the configuration: templates and images.
#[derive(Debug, Clone)]
pub struct ActivityConfig {
    pub details: Option<String>,
    pub state: Option<String>,
    pub large_image_key: Option<String>,
    pub large_image_text: Option<String>,
    pub editor_image_key: Option<String>,
    pub editor_image_text: Option<String>,
    pub language_images: Option<bool>,
}

impl Default for ActivityConfig {
    fn default() -> (r: Self)
        ensures
            r.details is None,
            r.state is None,
            r.large_image_key is None,
            r.large_image_text is None,
            r.editor_image_key is None,
            r.editor_image_text is None,
            r.language_images is None,
    {
        ActivityConfig {
            details: None,
            state: None,
            large_image_key: None,
            large_image_text: None,
            editor_image_key: None,
            editor_image_text: None,
            language_images: None,
        }
    }
}

/// The whole configuration; every field is optional and has a default.
#[derive(Debug)]
pub struct Config {
    pub application_id: Option<u64>,
    pub activity: Option<ActivityConfig>,
    pub time_tracking: Option<TimeTracking>,
    pub editor_name: Option<String>,
}

impl Default for Config {
    fn default() -> (r: Self)
        ensures
            r.application_id is None,
            r.activity is None,
            r.time_tracking is None,
            r.editor_name is None,
    {
        Config { application_id: None, activity: None, time_tracking: None, editor_name: None }
    }
}

pub const DEFAULT_APPLICATION_ID: u64 = 1470506076574187745;
pub const DEFAULT_DETAILS: &'static str = "Editing: {filename}";
pub const DEFAULT_STATE: &'static str = "in {workspace}";
pub const DEFAULT_EDITOR_NAME: &'static str = "Helix";

/// The images of a payload, each with its label.
#[derive(Debug, Clone)]
pub struct ActivityAssets {
    pub large_image: Option<String>,
    pub large_text: Option<String>,
    pub small_image: Option<String>,
    pub small_text: Option<String>,
}

impl ActivityAssets {
    /// The images that `config` gives a file of a workspace: the large image
    /// with its substituted label, and the language's icon with its name.
    pub open spec fn matches(
        &self,
        config: &Config,
        filename: Seq<char>,
        workspace: Seq<char>,
        language: (Seq<char>, Seq<char>),
    ) -> bool {
        &&& text_of(self.large_image) == config.large_image_key_spec()
        &&& text_of(self.large_text) == if config.large_image_key_spec() is Some {
            match config.large_image_text_spec() {
                Some(t) => Some(
                    substitute(t, filename, workspace, language.0, config.editor_name_spec()),
                ),
                None => None,
            }
        } else {
            None
        }
        &&& text_of(self.small_image) == config.small_image_key_spec(language.1)
        &&& text_of(self.small_text) == if config.small_image_key_spec(language.1) is Some {
            Some(language.0)
        } else {
            None
        }
    }
}

/// What is sent to the status service: detail and state lines, the start of
/// the session in seconds since the Unix epoch, and the images.
#[derive(Debug, Clone)]
pub struct ActivityPayload {
    pub details: String,
    pub state: String,
    pub start: Option<u64>,
    pub assets: Option<ActivityAssets>,
}

impl ActivityPayload {
    /// Whether this payload's lines and images are those that `config` gives
    /// file `filename` of `workspace`, in a language with (name, icon key)
    /// `language`; an image block is there only where there is an image.
    pub open spec fn composed_from(
        &self,
        config: &Config,
        filename: Seq<char>,
        workspace: Seq<char>,
        language: (Seq<char>, Seq<char>),
    ) -> bool {
        &&& self.details@ == substitute(
            config.details_template(),
            filename,
            workspace,
            language.0,
            config.editor_name_spec(),
        )
        &&& self.state@ == substitute(
            config.state_template(),
            filename,
            workspace,
            language.0,
            config.editor_name_spec(),
        )
        &&& self.assets is Some <==> (config.large_image_key_spec() is Some
            || config.small_image_key_spec(language.1) is Some)
        &&& self.assets is Some ==> self.assets->0.matches(config, filename, workspace, language)
    }
}

pub const CONFIG_PARENT: &'static str = ".config";
pub const CONFIG_DIR_NAME: &'static str = "discord-presence-lsp";
pub const CONFIG_FILE_NAME: &'static str = "config.toml";

/// The configuration directory under home directory `home`.
pub open spec fn config_dir_under(home: Seq<char>) -> Seq<char> {
    joined(joined(home, CONFIG_PARENT@), CONFIG_DIR_NAME@)
}

/// The directory of the configuration file, given the user's home directory.
pub fn get_config_dir(home: Option<&str>) -> (r: Option<String>)
    ensures
        match home {
            Some(h) => r is Some && r->0@ == config_dir_under(h@),
            None => r is None,
        },
{
    match home {
        Some(h) => {
            let parent = join_path(h, CONFIG_PARENT);
            Some(join_path(parent.as_str(), CONFIG_DIR_NAME))
        },
        None => None,
    }
}

/// The configuration file's path, given the user's home directory.
pub fn get_config_path(home: Option<&str>) -> (r: Option<String>)
    ensures
        match home {
            Some(h) => r is Some && r->0@ == joined(config_dir_under(h@), CONFIG_FILE_NAME@),
            None => r is None,
        },
{
    match get_config_dir(home) {
        Some(dir) => Some(join_path(dir.as_str(), CONFIG_FILE_NAME)),
        None => None,
    }
}

/// The first of two optional texts that is present.
pub open spec fn either(a: Option<String>, b: Option<String>) -> Option<Seq<char>> {
    if a is Some {
        text_of(a)
    } else {
        text_of(b)
    }
}

impl Config {
    pub open spec fn application_id_spec(&self) -> u64 {
        match self.application_id {
            Some(id) => id,
            None => DEFAULT_APPLICATION_ID,
        }
    }

    pub open spec fn time_tracking_spec(&self) -> TimeTracking {
        match self.time_tracking {
            Some(t) => t,
            None => TimeTracking::File,
        }
    }

    pub open spec fn editor_name_spec(&self) -> Seq<char> {
        match self.editor_name {
            Some(n) => n@,
            None => DEFAULT_EDITOR_NAME@,
        }
    }

    pub open spec fn language_images_spec(&self) -> bool {
        match self.activity {
            Some(a) => match a.language_images {
                Some(b) => b,
                None => true,
            },
            None => true,
        }
    }

    /// The template of the detail line.
    pub open spec fn details_template(&self) -> Seq<char> {
        match self.activity {
            Some(a) => match a.details {
                Some(d) => d@,
                None => DEFAULT_DETAILS@,
            },
            None => DEFAULT_DETAILS@,
        }
    }

    /// The template of the state line.
    pub open spec fn state_template(&self) -> Seq<char> {
        match self.activity {
            Some(a) => match a.state {
                Some(d) => d@,
                None => DEFAULT_STATE@,
            },
            None => DEFAULT_STATE@,
        }
    }

    /// The large image's key: the editor's own, else the generic one.
    pub open spec fn large_image_key_spec(&self) -> Option<Seq<char>> {
        match self.activity {
            Some(a) => either(a.editor_image_key, a.large_image_key),
            None => None,
        }
    }

    /// The template of the large image's label.
    pub open spec fn large_image_text_spec(&self) -> Option<Seq<char>> {
        match self.activity {
            Some(a) => either(a.editor_image_text, a.large_image_text),
            None => None,
        }
    }

    /// The small image's key: the language's icon, where icons are on and
    /// the language has one.
    pub open spec fn small_image_key_spec(&self, icon_key: Seq<char>) -> Option<Seq<char>> {
        if self.language_images_spec() && icon_key.len() > 0 {
            Some(icon_key)
        } else {
            None
        }
    }

    pub fn get_application_id(&self) -> (r: u64)
        ensures
            r == self.application_id_spec(),
    {
        match self.application_id {
            Some(id) => id,
            None => DEFAULT_APPLICATION_ID,
        }
    }

    pub fn get_time_tracking(&self) -> (r: TimeTracking)
        ensures
            r == self.time_tracking_spec(),
    {
        match self.time_tracking {
            Some(t) => t,
            None => TimeTracking::File,
        }
    }

    pub fn get_editor_name(&self) -> (r: &str)
        ensures
            r@ == self.editor_name_spec(),
    {
        match &self.editor_name {
            Some(n) => n.as_str(),
            None => DEFAULT_EDITOR_NAME,
        }
    }

    /// The template of the detail line.
    fn details_template_text(&self) -> (r: &str)
        ensures
            r@ == self.details_template(),
    {
        match &self.activity {
            Some(a) => match &a.details {
                Some(d) => d.as_str(),
                None => DEFAULT_DETAILS,
            },
            None => DEFAULT_DETAILS,
        }
    }

    /// The template of the state line.
    fn state_template_text(&self) -> (r: &str)
        ensures
            r@ == self.state_template(),
    {
        match &self.activity {
            Some(a) => match &a.state {
                Some(d) => d.as_str(),
                None => DEFAULT_STATE,
            },
            None => DEFAULT_STATE,
        }
    }

    /// The detail and state lines for a file of a workspace.
    pub fn build_details_and_state(
        &self,
        filename: &str,
        workspace: &str,
        language: &LanguageInfo,
    ) -> (r: (String, String))
        ensures
            r.0@ == substitute(
                self.details_template(),
                filename@,
                workspace@,
                language.name@,
                self.editor_name_spec(),
            ),
            r.1@ == substitute(
                self.state_template(),
                filename@,
                workspace@,
                language.name@,
                self.editor_name_spec(),
            ),
    {
        let editor = self.get_editor_name();
        let details = replace_placeholders(
            self.details_template_text(),
            filename,
            workspace,
            language,
            editor,
        );
        let state = replace_placeholders(
            self.state_template_text(),
            filename,
            workspace,
            language,
            editor,
        );
        (details, state)
    }

    /// The payload for a file of a workspace: the detail and state lines,
    /// the session's start if one is given, and the images, if there is any.
    pub fn build_activity(
        &self,
        filename: &str,
        workspace: &str,
        language: &LanguageInfo,
        start_timestamp: Option<u64>,
    ) -> (r: ActivityPayload)
        ensures
            r.composed_from(self, filename@, workspace@, language.view_pair()),
            r.start == start_timestamp,
    {
        let (details, state) = self.build_details_and_state(filename, workspace, language);
        let editor = self.get_editor_name();
        let mut large_image: Option<String> = None;
        let mut large_text: Option<String> = None;
        if let Some(a) = &self.activity {
            large_image = match &a.editor_image_key {
                Some(k) => Some(k.clone()),
                None => match &a.large_image_key {
                    Some(k) => Some(k.clone()),
                    None => None,
                },
            };
            if large_image.is_some() {
                let template = match &a.editor_image_text {
                    Some(t) => Some(t.as_str()),
                    None => match &a.large_image_text {
                        Some(t) => Some(t.as_str()),
                        None => None,
                    },
                };
                large_text = match template {
                    Some(t) => Some(replace_placeholders(t, filename, workspace, language, editor)),
                    None => None,
                };
            }
        }
        let (small_image, small_text) = if self.show_language_images()
            && !language.icon_key.as_str().is_empty() {
            (Some(language.icon_key.clone()), Some(language.name.clone()))
        } else {
            (None, None)
        };
        let assets = if large_image.is_some() || small_image.is_some() {
            Some(ActivityAssets { large_image, large_text, small_image, small_text })
        } else {
            None
        };
        ActivityPayload { details, state, start: start_timestamp, assets }
    }

    pub fn show_language_images(&self) -> (r: bool)
        ensures
            r == self.language_images_spec(),
    {
        match &self.activity {
            Some(a) => match a.language_images {
                Some(b) => b,
                None => true,
            },
            None => true,
        }
    }
}

} // verus!
