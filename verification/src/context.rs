//! The context that goes with a voice recording: what is known about the
//! text field in focus and the application that owns it.

use vstd::prelude::*;
use vstd::string::*;
use crate::fields::{split_on, trim_and_split, trimmed};

verus! {

/// The state of the focused text field and its surroundings.
#[derive(Debug, Clone)]
pub struct VoiceContext {
    pub text_before_cursor: String,
    pub text_after_cursor: String,
    pub selected_text: String,
    pub cursor_position: i32,
    pub full_text: String,
    pub package_name: String,
    pub field_type: Option<String>,
    pub field_hint: Option<String>,
    pub field_label: Option<String>,
    pub is_password_field: bool,
    pub is_rich_editor: bool,
    pub keyboard_mode: String,
    pub input_shift_state: String,
    pub locale: String,
    pub content_mime_types: Option<Vec<String>>,
    pub ime_options: ImeOptions,
}

/// What the input method is asked to do at the end of the input.
#[derive(Debug, Clone)]
pub struct ImeOptions {
    pub action: String,
    pub flag_no_enter_action: bool,
    pub flag_no_personalized_learning: bool,
}

/// The window in front and the application that owns it.
#[derive(Debug, Clone)]
pub struct WindowInfo {
    pub window_title: String,
    pub application_name: String,
    pub bundle_id: String,
    pub process_name: String,
}

/// Whether `ctx` is the context of an unknown, empty text field, whatever
/// its package name.
pub open spec fn is_default_field(ctx: VoiceContext) -> bool {
    &&& ctx.text_before_cursor@ == Seq::<char>::empty()
    &&& ctx.text_after_cursor@ == Seq::<char>::empty()
    &&& ctx.selected_text@ == Seq::<char>::empty()
    &&& ctx.cursor_position == 0
    &&& ctx.full_text@ == Seq::<char>::empty()
    &&& ctx.field_type is None
    &&& ctx.field_hint is None
    &&& ctx.field_label is None
    &&& !ctx.is_password_field
    &&& !ctx.is_rich_editor
    &&& ctx.keyboard_mode@ == "text"@
    &&& ctx.input_shift_state@ == "unshifted"@
    &&& ctx.locale@ == "en-US"@
    &&& ctx.content_mime_types is None
    &&& ctx.ime_options.action@ == "done"@
    &&& !ctx.ime_options.flag_no_enter_action
    &&& !ctx.ime_options.flag_no_personalized_learning
}

/// Whether `ctx` is the context of an unknown, empty text field of no package.
pub open spec fn is_default_context(ctx: VoiceContext) -> bool {
    is_default_field(ctx) && ctx.package_name@ == Seq::<char>::empty()
}

/// Whether `ctx` is `base` with the package name replaced by `package`.
pub open spec fn is_with_package(ctx: VoiceContext, base: VoiceContext, package: Seq<char>) -> bool {
    &&& ctx.package_name@ == package
    &&& ctx.text_before_cursor == base.text_before_cursor
    &&& ctx.text_after_cursor == base.text_after_cursor
    &&& ctx.selected_text == base.selected_text
    &&& ctx.cursor_position == base.cursor_position
    &&& ctx.full_text == base.full_text
    &&& ctx.field_type == base.field_type
    &&& ctx.field_hint == base.field_hint
    &&& ctx.field_label == base.field_label
    &&& ctx.is_password_field == base.is_password_field
    &&& ctx.is_rich_editor == base.is_rich_editor
    &&& ctx.keyboard_mode == base.keyboard_mode
    &&& ctx.input_shift_state == base.input_shift_state
    &&& ctx.locale == base.locale
    &&& ctx.content_mime_types == base.content_mime_types
    &&& ctx.ime_options == base.ime_options
}

impl Default for VoiceContext {
    fn default() -> (ctx: VoiceContext)
        ensures
            is_default_context(ctx),
    {
        VoiceContext {
            text_before_cursor: String::new(),
            text_after_cursor: String::new(),
            selected_text: String::new(),
            cursor_position: 0,
            full_text: String::new(),
            package_name: String::new(),
            field_type: None,
            field_hint: None,
            field_label: None,
            is_password_field: false,
            is_rich_editor: false,
            keyboard_mode: String::from_str("text"),
            input_shift_state: String::from_str("unshifted"),
            locale: String::from_str("en-US"),
            content_mime_types: None,
            ime_options: ImeOptions {
                action: String::from_str("done"),
                flag_no_enter_action: false,
                flag_no_personalized_learning: false,
            },
        }
    }
}

/// Whether `needle` occurs in `haystack` as a run of consecutive characters.
pub open spec fn has_substring(haystack: Seq<char>, needle: Seq<char>) -> bool {
    exists|i: int|
        0 <= i && i + needle.len() <= haystack.len() && #[trigger] haystack.subrange(
            i,
            i + needle.len(),
        ) == needle
}

/// Calls `str::contains` with a string pattern, which is documented to tell
/// whether the pattern matches a sub-slice of the string.
#[verifier::external_body]
pub(crate) fn text_contains(haystack: &str, needle: &str) -> (found: bool)
    ensures
        found == has_substring(haystack@, needle@),
{
    haystack.contains(needle)
}

/// The kind of field that an accessibility role stands for. A text field or
/// text area is a password field if its role says so, else plain text; search
/// fields and combo boxes have kinds of their own; anything else is text.
pub open spec fn field_type_of(role: Seq<char>) -> Seq<char> {
    if has_substring(role, "TextField"@) || has_substring(role, "TextArea"@) {
        if has_substring(role, "Secure"@) || has_substring(role, "Password"@) {
            "password"@
        } else {
            "text"@
        }
    } else if has_substring(role, "SearchField"@) {
        "search"@
    } else if has_substring(role, "ComboBox"@) {
        "combobox"@
    } else {
        "text"@
    }
}

/// Whether an accessibility role marks a field that holds a secret.
pub open spec fn is_password_role(role: Seq<char>) -> bool {
    has_substring(role, "SecureTextField"@) || has_substring(role, "Password"@)
}

/// Names the kind of field that an accessibility role stands for.
pub fn determine_field_type(role: &str) -> (kind: String)
    ensures
        kind@ == field_type_of(role@),
{
    if text_contains(role, "TextField") || text_contains(role, "TextArea") {
        if text_contains(role, "Secure") || text_contains(role, "Password") {
            String::from_str("password")
        } else {
            String::from_str("text")
        }
    } else if text_contains(role, "SearchField") {
        String::from_str("search")
    } else if text_contains(role, "ComboBox") {
        String::from_str("combobox")
    } else {
        String::from_str("text")
    }
}

/// Whether `ctx` is what the attributes read from the focused element give.
/// An attribute that could not be read leaves its fields as in the default
/// context. The cursor is taken to stand at the end of the text.
pub open spec fn is_field_context(
    ctx: VoiceContext,
    value: Option<String>,
    selected: Option<String>,
    role: Option<String>,
    title: Option<String>,
    help: Option<String>,
) -> bool {
    &&& ctx.full_text@ == match value {
        Some(text) => text@,
        None => Seq::<char>::empty(),
    }
    &&& ctx.text_before_cursor@ == ctx.full_text@
    &&& ctx.text_after_cursor@ == Seq::<char>::empty()
    &&& ctx.selected_text@ == match selected {
        Some(text) => text@,
        None => Seq::<char>::empty(),
    }
    &&& ctx.field_type.deep_view() == match role {
        Some(r) => Some(field_type_of(r@)),
        None => None,
    }
    &&& ctx.is_password_field == match role {
        Some(r) => is_password_role(r@),
        None => false,
    }
    &&& ctx.field_label == title
    &&& ctx.field_hint == help
    &&& ctx.cursor_position == 0
    &&& ctx.package_name@ == Seq::<char>::empty()
    &&& !ctx.is_rich_editor
    &&& ctx.keyboard_mode@ == "text"@
    &&& ctx.input_shift_state@ == "unshifted"@
    &&& ctx.locale@ == "en-US"@
    &&& ctx.content_mime_types is None
    &&& ctx.ime_options.action@ == "done"@
    &&& !ctx.ime_options.flag_no_enter_action
    &&& !ctx.ime_options.flag_no_personalized_learning
}

/// Builds the context of the focused element from the attributes that could
/// be read from it: its value, its selected text, its role, its title and its
/// help text.
pub fn text_field_context(
    value: Option<String>,
    selected: Option<String>,
    role: Option<String>,
    title: Option<String>,
    help: Option<String>,
) -> (ctx: VoiceContext)
    ensures
        is_field_context(ctx, value, selected, role, title, help),
{
    let mut ctx = VoiceContext::default();
    match value {
        Some(text) => {
            ctx.full_text = text.clone();
            ctx.text_before_cursor = text;
        },
        None => {},
    }
    match selected {
        Some(text) => {
            ctx.selected_text = text;
        },
        None => {},
    }
    match role {
        Some(r) => {
            ctx.field_type = Some(determine_field_type(r.as_str()));
            ctx.is_password_field = text_contains(r.as_str(), "SecureTextField") || text_contains(
                r.as_str(),
                "Password",
            );
        },
        None => {},
    }
    match title {
        Some(text) => {
            ctx.field_label = Some(text);
        },
        None => {},
    }
    match help {
        Some(text) => {
            ctx.field_hint = Some(text);
        },
        None => {},
    }
    ctx
}

/// Whether `info` is what the fields of a window query say: the name of the
/// application, its bundle identifier and the title of its front window, in
/// that order. The application's name also stands for the process name.
pub open spec fn is_window_info_of(info: WindowInfo, fields: Seq<Seq<char>>) -> bool {
    &&& info.application_name@ == fields[0]
    &&& info.bundle_id@ == fields[1]
    &&& info.window_title@ == fields[2]
    &&& info.process_name@ == fields[0]
}

/// Reads the answer of a window query: a line of at least three fields
/// separated by `|`, with white space around it. Fields after the third are
/// not looked at.
pub fn parse_window_info(output: &str) -> (info: Result<WindowInfo, String>)
    ensures
        ({
            let fields = split_on(trimmed(output@), '|');
            &&& fields.len() < 3 ==> (info matches Err(e) && e@
                == "Invalid AppleScript output format"@)
            &&& fields.len() >= 3 ==> (info matches Ok(w) && is_window_info_of(w, fields))
        }),
{
    let parts = trim_and_split(output, '|');
    let ghost fields = parts.deep_view();
    if parts.len() < 3 {
        return Err(String::from_str("Invalid AppleScript output format"));
    }
    assert(fields[0] == parts@[0]@);
    assert(fields[1] == parts@[1]@);
    assert(fields[2] == parts@[2]@);
    Ok(
        WindowInfo {
            application_name: parts[0].clone(),
            bundle_id: parts[1].clone(),
            window_title: parts[2].clone(),
            process_name: parts[0].clone(),
        },
    )
}

/// Judges a window query that was run as a script: a script that failed is an
/// error that quotes what it wrote to its error stream, and the output of one
/// that succeeded is read by [`parse_window_info`].
pub fn window_info_from_script(success: bool, stdout: &str, stderr: &str) -> (info: Result<
    WindowInfo,
    String,
>)
    ensures
        !success ==> (info matches Err(e) && e@ == "AppleScript failed: "@ + stderr@),
        success ==> ({
            let fields = split_on(trimmed(stdout@), '|');
            &&& fields.len() < 3 ==> (info matches Err(e) && e@
                == "Invalid AppleScript output format"@)
            &&& fields.len() >= 3 ==> (info matches Ok(w) && is_window_info_of(w, fields))
        }),
{
    if !success {
        let mut message = String::from_str("AppleScript failed: ");
        message.append(stderr);
        return Err(message);
    }
    parse_window_info(stdout)
}

/// The window in front, where the platform offers no way to ask: every field
/// says that it is unknown.
pub fn get_active_window_info() -> (info: Result<WindowInfo, String>)
    ensures
        info matches Ok(w) && w.window_title@ == "Unknown"@ && w.application_name@ == "Unknown"@
            && w.bundle_id@ == "unknown"@ && w.process_name@ == "unknown"@,
{
    Ok(
        WindowInfo {
            window_title: String::from_str("Unknown"),
            application_name: String::from_str("Unknown"),
            bundle_id: String::from_str("unknown"),
            process_name: String::from_str("unknown"),
        },
    )
}

/// The focused text field, where the platform offers no way to ask: the
/// default context.
pub fn get_text_field_info() -> (info: Result<VoiceContext, String>)
    ensures
        info matches Ok(ctx) && is_default_context(ctx),
{
    Ok(VoiceContext::default())
}

/// Puts the two queries together: the text field's context, or the default
/// one where that query failed, with the package name set to the bundle
/// identifier of the window in front, or to `unknown` where that query failed.
pub fn merge_voice_context(
    text_field: Result<VoiceContext, String>,
    window: Result<WindowInfo, String>,
) -> (ctx: VoiceContext)
    ensures
        ctx.package_name@ == match window {
            Ok(w) => w.bundle_id@,
            Err(_) => "unknown"@,
        },
        match text_field {
            Ok(base) => is_with_package(ctx, base, ctx.package_name@),
            Err(_) => is_default_field(ctx),
        },
{
    let mut ctx = match text_field {
        Ok(found) => found,
        Err(_) => VoiceContext::default(),
    };
    match window {
        Ok(w) => {
            ctx.package_name = w.bundle_id;
        },
        Err(_) => {
            ctx.package_name = String::from_str("unknown");
        },
    }
    ctx
}

/// Gathers the voice context from both queries.
pub fn gather_voice_context() -> (ctx: VoiceContext)
    ensures
        is_default_field(ctx),
        ctx.package_name@ == "unknown"@,
{
    merge_voice_context(get_text_field_info(), get_active_window_info())
}

} // verus!
