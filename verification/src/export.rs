//! The table that the host reads to find what a plugin offers, and the
//! table it is given instead when the plugin fails to start.

use crate::raw_structs::Callback;
use vstd::prelude::*;
use vstd::string::*;

verus! {

/// The version of the UI toolkit that the table is laid out for.
pub const IMGUI_VERSION: u32 = 18000;

/// The first word of the table. In the table of a plugin that started it
/// is the size of the table in bytes. In the table of a plugin that failed
/// to start it leads to the text that says why.
#[derive(Debug)]
pub enum ExportSize {
    /// The size of the table in bytes.
    Bytes(usize),
    /// Why the plugin failed to start, with a NUL at its end.
    Error(String),
}

/// What an `ExportSize` holds.
pub enum ExportSizeView {
    Bytes(usize),
    Error(Seq<char>),
}

impl View for ExportSize {
    type V = ExportSizeView;

    open spec fn view(&self) -> ExportSizeView {
        match self {
            ExportSize::Bytes(size) => ExportSizeView::Bytes(*size),
            ExportSize::Error(message) => ExportSizeView::Error(message@),
        }
    }
}

/// The table that the host reads, field by field in the order of the
/// host.
#[derive(Debug)]
pub struct ArcDpsExport<'a> {
    pub size: ExportSize,
    /// The signature by which the host tells plugins apart. It is 0 in the
    /// table of a plugin that failed to start.
    pub sig: u32,
    pub imgui_version: u32,
    /// The version of the plugin, with a NUL at its end.
    pub out_build: &'a str,
    /// The name of the plugin, with a NUL at its end.
    pub out_name: &'a str,
    pub combat: Option<Callback>,
    pub combat_local: Option<Callback>,
    pub imgui: Option<Callback>,
    pub options_end: Option<Callback>,
    pub options_windows: Option<Callback>,
    pub wnd_filter: Option<Callback>,
    pub wnd_nofilter: Option<Callback>,
}

/// What an `ArcDpsExport` holds.
pub struct ArcDpsExportView {
    pub size: ExportSizeView,
    pub sig: u32,
    pub imgui_version: u32,
    pub out_build: Seq<char>,
    pub out_name: Seq<char>,
    pub combat: Option<Callback>,
    pub combat_local: Option<Callback>,
    pub imgui: Option<Callback>,
    pub options_end: Option<Callback>,
    pub options_windows: Option<Callback>,
    pub wnd_filter: Option<Callback>,
    pub wnd_nofilter: Option<Callback>,
}

impl<'a> View for ArcDpsExport<'a> {
    type V = ArcDpsExportView;

    open spec fn view(&self) -> ArcDpsExportView {
        ArcDpsExportView {
            size: self.size@,
            sig: self.sig,
            imgui_version: self.imgui_version,
            out_build: self.out_build@,
            out_name: self.out_name@,
            combat: self.combat,
            combat_local: self.combat_local,
            imgui: self.imgui,
            options_end: self.options_end,
            options_windows: self.options_windows,
            wnd_filter: self.wnd_filter,
            wnd_nofilter: self.wnd_nofilter,
        }
    }
}

/// The table of a plugin that failed to start with `message`: no callback
/// at all, the signature 0, and in place of the size the message with a NUL
/// at its end. Version and name are those of the plugin.
pub open spec fn error_export_of(
    out_build: Seq<char>,
    out_name: Seq<char>,
    message: Seq<char>,
) -> ArcDpsExportView {
    ArcDpsExportView {
        size: ExportSizeView::Error(message.push('\0')),
        sig: 0,
        imgui_version: IMGUI_VERSION,
        out_build,
        out_name,
        combat: None,
        combat_local: None,
        imgui: None,
        options_end: None,
        options_windows: None,
        wnd_filter: None,
        wnd_nofilter: None,
    }
}

/// What starting the plugin came to: nothing, or the message of a failure.
pub open spec fn init_failure(init: Result<(), String>) -> Option<Seq<char>> {
    match init {
        Ok(_) => None,
        Err(message) => Some(message@),
    }
}

/// The table that the host is given once the plugin has been started: the
/// plugin's own where it started, the table of the failure where it did
/// not.
pub open spec fn loaded_export(export: ArcDpsExportView, failure: Option<Seq<char>>)
    -> ArcDpsExportView {
    match failure {
        None => export,
        Some(message) => error_export_of(export.out_build, export.out_name, message),
    }
}

/// The table of a plugin that failed to start with `message`.
pub fn error_export<'a>(out_build: &'a str, out_name: &'a str, message: String) -> (export:
    ArcDpsExport<'a>)
    ensures
        export@ == error_export_of(out_build@, out_name@, message@),
{
    proof {
        reveal_strlit("\0");
        assert(message@ + "\0"@ =~= message@.push('\0'));
    }
    ArcDpsExport {
        size: ExportSize::Error(message.concat("\0")),
        sig: 0,
        imgui_version: IMGUI_VERSION,
        out_build,
        out_name,
        combat: None,
        combat_local: None,
        imgui: None,
        options_end: None,
        options_windows: None,
        wnd_filter: None,
        wnd_nofilter: None,
    }
}

/// What has been installed so far: the failure with which the plugin
/// first failed to start, if it ever did. A failure that was installed
/// stays.
pub struct Installed {
    failure: Option<String>,
}

impl Installed {
    /// The message of the failure that is installed, if one is.
    pub closed spec fn failure(&self) -> Option<Seq<char>> {
        match self.failure {
            Some(message) => Some(message@),
            None => None,
        }
    }

    /// Nothing is installed.
    pub fn new() -> (installed: Installed)
        ensures
            installed.failure() is None,
    {
        Installed { failure: None }
    }

    /// Whether the table of a failure is installed.
    pub fn has_failed(&self) -> (failed: bool)
        ensures
            failed == self.failure() is Some,
    {
        self.failure.is_some()
    }
}

/// The failure that is installed after the plugin has been started once
/// more: the one that was installed before, where there was one, and else
/// the one that starting the plugin came to, if it did.
pub open spec fn installed_failure(before: Option<Seq<char>>, init: Option<Seq<char>>) -> Option<
    Seq<char>,
> {
    match before {
        Some(message) => Some(message),
        None => init,
    }
}

/// Picks the table that the host is given, from the table of the plugin,
/// from what starting the plugin came to, and from what was installed
/// before. Once the table of a failure is installed it is never replaced:
/// every later call gives that table again, whatever starting the plugin
/// came to then. Before that, the table of the failure is given if and only
/// if the plugin failed to start, and that failure is installed.
pub fn load<'a>(installed: &mut Installed, export: ArcDpsExport<'a>, init: Result<(), String>) -> (loaded:
    ArcDpsExport<'a>)
    ensures
        final(installed).failure() == installed_failure(
            old(installed).failure(),
            init_failure(init),
        ),
        loaded@ == loaded_export(export@, final(installed).failure()),
        old(installed).failure() is None && init is Ok ==> loaded == export,
        export.size is Bytes ==> (loaded.size is Error <==> old(installed).failure() is Some
            || init is Err),
{
    if installed.failure.is_none() {
        match init {
            Ok(_) => {},
            Err(message) => {
                installed.failure = Some(message);
            },
        }
    }
    match &installed.failure {
        Some(message) => error_export(export.out_build, export.out_name, message.clone()),
        None => export,
    }
}

/// A failure that is installed stays: whatever starting the plugin comes
/// to later, the failure that is installed is the same, and the table that
/// the host is given is the table of that failure.
pub proof fn lemma_installed_failure_stays(
    export: ArcDpsExportView,
    message: Seq<char>,
    init: Option<Seq<char>>,
)
    ensures
        installed_failure(Some(message), init) == Some(message),
        loaded_export(export, installed_failure(Some(message), init)) == error_export_of(
            export.out_build,
            export.out_name,
            message,
        ),
{
}

} // verus!
