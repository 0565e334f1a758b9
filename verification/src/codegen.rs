//! From the callbacks that a plugin names to the code that is generated
//! for it.
//!
//! A plugin names, for each slot of the host, a raw callback, a safe one,
//! both or none. A raw callback has the signature of the host and goes
//! into the table as it is. A safe callback needs an adapter, which is
//! generated and goes into the table in its place. Where both are named
//! the raw one wins, and no adapter is generated.
//!
//! The functions here decide what is generated. They know nothing of what
//! an expression is: `E` is whatever the plugin wrote.

use crate::export::IMGUI_VERSION;
use crate::text::str_eq;
use vstd::prelude::*;
use vstd::string::*;

verus! {

/// The adapters that can be generated, each known by the slot it serves.
#[derive(Clone, Copy, Debug, PartialEq, Eq, Structural)]
pub enum AdapterName {
    Combat,
    CombatLocal,
    Imgui,
    OptionsEnd,
    OptionsWindows,
    WndFilter,
    WndNofilter,
    ExtrasSquadUpdate,
    ExtrasChatMessage,
}

/// An adapter that is to be generated: its name, and the safe callback
/// that it calls.
#[derive(Debug, PartialEq, Eq)]
pub struct Adapter<E> {
    pub name: AdapterName,
    pub safe: E,
}

/// What goes into a slot of a table.
#[derive(Debug, PartialEq, Eq)]
pub enum Entry<E> {
    /// Nothing: the slot is null.
    Null,
    /// The raw callback of the plugin, as it is.
    Raw(E),
    /// The adapter of that name.
    Adapter(AdapterName),
}

/// What is generated for one slot: the adapter, if one is needed, and the
/// entry of the table. The raw callback wins over the safe one.
pub open spec fn slot_of<E>(raw: Option<E>, safe: Option<E>, name: AdapterName) -> (
    Option<Adapter<E>>,
    Entry<E>,
) {
    match raw {
        Some(raw) => (None, Entry::Raw(raw)),
        None => match safe {
            Some(safe) => (Some(Adapter { name, safe }), Entry::Adapter(name)),
            None => (None, Entry::Null),
        },
    }
}

/// Decides what is generated for one slot.
pub fn build_slot<E>(raw: Option<E>, safe: Option<E>, name: AdapterName) -> (slot: (
    Option<Adapter<E>>,
    Entry<E>,
))
    ensures
        slot == slot_of(raw, safe, name),
        slot.0 is Some <==> raw is None && safe is Some,
        slot.0 is Some <==> slot.1 is Adapter,
{
    match raw {
        Some(raw) => (None, Entry::Raw(raw)),
        None => match safe {
            Some(safe) => (Some(Adapter { name, safe }), Entry::Adapter(name)),
            None => (None, Entry::Null),
        },
    }
}

/// Decides what is generated for a combat slot, of which there are two:
/// `func_name` says which.
pub fn build_cbt<E>(raw_combat: Option<E>, combat: Option<E>, func_name: AdapterName) -> (slot: (
    Option<Adapter<E>>,
    Entry<E>,
))
    ensures
        slot == slot_of(raw_combat, combat, func_name),
{
    build_slot(raw_combat, combat, func_name)
}

/// Decides what is generated for the combat slot.
pub fn build_combat<E>(raw_combat: Option<E>, combat: Option<E>) -> (slot: (
    Option<Adapter<E>>,
    Entry<E>,
))
    ensures
        slot == slot_of(raw_combat, combat, AdapterName::Combat),
{
    build_cbt(raw_combat, combat, AdapterName::Combat)
}

/// Decides what is generated for the slot of the local combat.
pub fn build_combat_local<E>(raw_combat: Option<E>, combat: Option<E>) -> (slot: (
    Option<Adapter<E>>,
    Entry<E>,
))
    ensures
        slot == slot_of(raw_combat, combat, AdapterName::CombatLocal),
{
    build_cbt(raw_combat, combat, AdapterName::CombatLocal)
}

/// Decides what is generated for the render slot.
pub fn build_imgui<E>(raw_imgui: Option<E>, imgui: Option<E>) -> (slot: (
    Option<Adapter<E>>,
    Entry<E>,
))
    ensures
        slot == slot_of(raw_imgui, imgui, AdapterName::Imgui),
{
    build_slot(raw_imgui, imgui, AdapterName::Imgui)
}

/// Decides what is generated for the slot of the end of the options panel.
pub fn build_options_end<E>(raw_options_end: Option<E>, options_end: Option<E>) -> (slot: (
    Option<Adapter<E>>,
    Entry<E>,
))
    ensures
        slot == slot_of(raw_options_end, options_end, AdapterName::OptionsEnd),
{
    build_slot(raw_options_end, options_end, AdapterName::OptionsEnd)
}

/// Decides what is generated for the slot of the windows of the options
/// panel.
pub fn build_options_windows<E>(
    raw_options_windows: Option<E>,
    options_windows: Option<E>,
) -> (slot: (Option<Adapter<E>>, Entry<E>))
    ensures
        slot == slot_of(raw_options_windows, options_windows, AdapterName::OptionsWindows),
{
    build_slot(raw_options_windows, options_windows, AdapterName::OptionsWindows)
}

/// Decides what is generated for a window message slot, of which there
/// are two: `func_name` says which.
pub fn build_wnd<E>(raw_wnd_filter: Option<E>, wnd_filter: Option<E>, func_name: AdapterName) -> (slot:
    (Option<Adapter<E>>, Entry<E>))
    ensures
        slot == slot_of(raw_wnd_filter, wnd_filter, func_name),
{
    build_slot(raw_wnd_filter, wnd_filter, func_name)
}

/// Decides what is generated for the slot of the filtered window messages.
pub fn build_wnd_filter<E>(raw_wnd: Option<E>, wnd: Option<E>) -> (slot: (
    Option<Adapter<E>>,
    Entry<E>,
))
    ensures
        slot == slot_of(raw_wnd, wnd, AdapterName::WndFilter),
{
    build_wnd(raw_wnd, wnd, AdapterName::WndFilter)
}

/// Decides what is generated for the slot of the unfiltered window
/// messages.
pub fn build_wnd_nofilter<E>(raw_wnd: Option<E>, wnd: Option<E>) -> (slot: (
    Option<Adapter<E>>,
    Entry<E>,
))
    ensures
        slot == slot_of(raw_wnd, wnd, AdapterName::WndNofilter),
{
    build_wnd(raw_wnd, wnd, AdapterName::WndNofilter)
}

/// Decides what is generated for the squad update of the extension. The
/// entry goes into the subscriber info, not into the table of the host.
pub fn build_extras_squad_update<E>(raw: Option<E>, safe: Option<E>) -> (slot: (
    Option<Adapter<E>>,
    Entry<E>,
))
    ensures
        slot == slot_of(raw, safe, AdapterName::ExtrasSquadUpdate),
{
    build_slot(raw, safe, AdapterName::ExtrasSquadUpdate)
}

/// Decides what is generated for the chat messages of the extension. The
/// entry goes into the subscriber info, not into the table of the host.
pub fn build_extras_chat_message<E>(raw: Option<E>, safe: Option<E>) -> (slot: (
    Option<Adapter<E>>,
    Entry<E>,
))
    ensures
        slot == slot_of(raw, safe, AdapterName::ExtrasChatMessage),
{
    build_slot(raw, safe, AdapterName::ExtrasChatMessage)
}

/// The function that answers the extension when it asks the plugin to
/// subscribe.
#[derive(Debug, PartialEq, Eq)]
pub enum ExtrasInit<E> {
    /// None is generated: the plugin does not subscribe.
    Absent,
    /// One that hands what the extension passes to the raw callback of the
    /// plugin, and does nothing else.
    Raw(E),
    /// One that negotiates the version of the subscriber info and fills it
    /// in with the two entries, and after that calls the safe callback of
    /// the plugin, where it has one.
    Negotiate { squad_cb: Entry<E>, chat_cb: Entry<E>, safe: Option<E> },
}

/// The function that is generated to answer the extension. A raw init
/// callback wins over everything. Without one, the handshake is generated
/// where the plugin has a safe init callback or an entry to subscribe
/// with. Without any of these nothing is generated.
pub open spec fn extras_init_of<E>(
    raw: Option<E>,
    safe: Option<E>,
    squad_update: Entry<E>,
    chat_message: Entry<E>,
) -> ExtrasInit<E> {
    match raw {
        Some(raw) => ExtrasInit::Raw(raw),
        None => if safe is Some || !(squad_update is Null) || !(chat_message is Null) {
            ExtrasInit::Negotiate { squad_cb: squad_update, chat_cb: chat_message, safe }
        } else {
            ExtrasInit::Absent
        },
    }
}

/// Decides what is generated to answer the extension.
pub fn build_extras_init<E>(
    raw: Option<E>,
    safe: Option<E>,
    squad_update: Entry<E>,
    chat_message: Entry<E>,
) -> (init: ExtrasInit<E>)
    ensures
        init == extras_init_of(raw, safe, squad_update, chat_message),
{
    let needs_init = !matches!(squad_update, Entry::Null) || !matches!(chat_message, Entry::Null);
    match raw {
        Some(raw) => ExtrasInit::Raw(raw),
        None => match safe {
            Some(safe) => ExtrasInit::Negotiate {
                squad_cb: squad_update,
                chat_cb: chat_message,
                safe: Some(safe),
            },
            None => if needs_init {
                ExtrasInit::Negotiate { squad_cb: squad_update, chat_cb: chat_message, safe: None }
            } else {
                ExtrasInit::Absent
            },
        },
    }
}

impl AdapterName {
    /// The name under which the adapter is generated.
    pub open spec fn ident(self) -> Seq<char> {
        match self {
            AdapterName::Combat => "abstract_combat"@,
            AdapterName::CombatLocal => "abstract_combat_local"@,
            AdapterName::Imgui => "abstract_imgui"@,
            AdapterName::OptionsEnd => "abstract_options_end"@,
            AdapterName::OptionsWindows => "abstract_options_windows"@,
            AdapterName::WndFilter => "abstract_wnd_filter"@,
            AdapterName::WndNofilter => "abstract_wnd_nofilter"@,
            AdapterName::ExtrasSquadUpdate => "abstract_extras_squad_update"@,
            AdapterName::ExtrasChatMessage => "abstract_extras_chat_message"@,
        }
    }

    /// The name under which the adapter is generated.
    pub fn as_str(self) -> (ident: &'static str)
        ensures
            ident@ == self.ident(),
    {
        match self {
            AdapterName::Combat => "abstract_combat",
            AdapterName::CombatLocal => "abstract_combat_local",
            AdapterName::Imgui => "abstract_imgui",
            AdapterName::OptionsEnd => "abstract_options_end",
            AdapterName::OptionsWindows => "abstract_options_windows",
            AdapterName::WndFilter => "abstract_wnd_filter",
            AdapterName::WndNofilter => "abstract_wnd_nofilter",
            AdapterName::ExtrasSquadUpdate => "abstract_extras_squad_update",
            AdapterName::ExtrasChatMessage => "abstract_extras_chat_message",
        }
    }
}

/// What a plugin names: itself, how it is started and stopped, and for
/// each slot a raw callback, a safe one, both or none.
#[derive(Debug)]
pub struct ArcDpsGen<E> {
    /// The name of the plugin. Without one the name of its package is
    /// taken.
    pub name: Option<String>,
    /// The signature by which the host tells plugins apart.
    pub sig: E,
    pub init: Option<E>,
    pub release: Option<E>,
    pub raw_combat: Option<E>,
    pub combat: Option<E>,
    pub raw_combat_local: Option<E>,
    pub combat_local: Option<E>,
    pub raw_imgui: Option<E>,
    pub imgui: Option<E>,
    pub raw_options_end: Option<E>,
    pub options_end: Option<E>,
    pub raw_options_windows: Option<E>,
    pub options_windows: Option<E>,
    pub raw_wnd_filter: Option<E>,
    pub wnd_filter: Option<E>,
    pub raw_wnd_nofilter: Option<E>,
    pub wnd_nofilter: Option<E>,
    pub raw_unofficial_extras_squad_update: Option<E>,
    pub unofficial_extras_squad_update: Option<E>,
    pub raw_unofficial_extras_chat_message: Option<E>,
    pub unofficial_extras_chat_message: Option<E>,
    pub raw_unofficial_extras_init: Option<E>,
    pub unofficial_extras_init: Option<E>,
}

/// The table of the host as it is generated: the signature, the version
/// of the UI toolkit and the seven slots, in the order of the host. Its
/// size is not here: it is taken from the table in memory where the table
/// is written out.
#[derive(Debug, PartialEq, Eq)]
pub struct ExportTable<E> {
    pub sig: E,
    /// Always `IMGUI_VERSION`.
    pub imgui_version: u32,
    pub combat: Entry<E>,
    pub combat_local: Entry<E>,
    pub imgui: Entry<E>,
    pub options_end: Entry<E>,
    pub options_windows: Entry<E>,
    pub wnd_filter: Entry<E>,
    pub wnd_nofilter: Entry<E>,
}

/// All that is generated for a plugin.
#[derive(Debug)]
pub struct ExportPlan<E> {
    /// The name under which the plugin makes itself known.
    pub name: String,
    /// The version of the package, with a NUL at its end.
    pub build: String,
    /// The name, with a NUL at its end.
    pub out_name: String,
    pub table: ExportTable<E>,
    /// The adapters, in the order of their slots.
    pub adapters: Vec<Adapter<E>>,
    pub extras_init: ExtrasInit<E>,
    /// What starts the plugin. Without it the plugin starts at once.
    pub init: Option<E>,
    /// What stops the plugin. Without it nothing is done.
    pub release: Option<E>,
}

/// One item or none, as a sequence.
pub open spec fn optional_seq<T>(item: Option<T>) -> Seq<T> {
    match item {
        Some(item) => seq![item],
        None => seq![],
    }
}

/// The name of a plugin: the one it names, else the name of its package.
pub open spec fn plugin_name(name: Option<String>, pkg_name: Option<&str>) -> Seq<char> {
    match name {
        Some(name) => name@,
        None => match pkg_name {
            Some(pkg_name) => pkg_name@,
            None => Seq::empty(),
        },
    }
}

/// The table that is generated for a plugin.
pub open spec fn table_of<E>(input: ArcDpsGen<E>) -> ExportTable<E> {
    ExportTable {
        sig: input.sig,
        imgui_version: IMGUI_VERSION,
        combat: slot_of(input.raw_combat, input.combat, AdapterName::Combat).1,
        combat_local: slot_of(
            input.raw_combat_local,
            input.combat_local,
            AdapterName::CombatLocal,
        ).1,
        imgui: slot_of(input.raw_imgui, input.imgui, AdapterName::Imgui).1,
        options_end: slot_of(input.raw_options_end, input.options_end, AdapterName::OptionsEnd).1,
        options_windows: slot_of(
            input.raw_options_windows,
            input.options_windows,
            AdapterName::OptionsWindows,
        ).1,
        wnd_filter: slot_of(input.raw_wnd_filter, input.wnd_filter, AdapterName::WndFilter).1,
        wnd_nofilter: slot_of(
            input.raw_wnd_nofilter,
            input.wnd_nofilter,
            AdapterName::WndNofilter,
        ).1,
    }
}

/// The adapters that are generated for a plugin, in the order of their
/// slots.
pub open spec fn adapters_of<E>(input: ArcDpsGen<E>) -> Seq<Adapter<E>> {
    optional_seq(slot_of(input.raw_combat, input.combat, AdapterName::Combat).0) + optional_seq(
        slot_of(input.raw_combat_local, input.combat_local, AdapterName::CombatLocal).0,
    ) + optional_seq(slot_of(input.raw_imgui, input.imgui, AdapterName::Imgui).0) + optional_seq(
        slot_of(input.raw_options_end, input.options_end, AdapterName::OptionsEnd).0,
    ) + optional_seq(
        slot_of(input.raw_options_windows, input.options_windows, AdapterName::OptionsWindows).0,
    ) + optional_seq(slot_of(input.raw_wnd_filter, input.wnd_filter, AdapterName::WndFilter).0)
        + optional_seq(
        slot_of(input.raw_wnd_nofilter, input.wnd_nofilter, AdapterName::WndNofilter).0,
    ) + optional_seq(
        slot_of(
            input.raw_unofficial_extras_squad_update,
            input.unofficial_extras_squad_update,
            AdapterName::ExtrasSquadUpdate,
        ).0,
    ) + optional_seq(
        slot_of(
            input.raw_unofficial_extras_chat_message,
            input.unofficial_extras_chat_message,
            AdapterName::ExtrasChatMessage,
        ).0,
    )
}

/// The function that is generated to answer the extension for a plugin.
pub open spec fn plugin_extras_init<E>(input: ArcDpsGen<E>) -> ExtrasInit<E> {
    extras_init_of(
        input.raw_unofficial_extras_init,
        input.unofficial_extras_init,
        slot_of(
            input.raw_unofficial_extras_squad_update,
            input.unofficial_extras_squad_update,
            AdapterName::ExtrasSquadUpdate,
        ).1,
        slot_of(
            input.raw_unofficial_extras_chat_message,
            input.unofficial_extras_chat_message,
            AdapterName::ExtrasChatMessage,
        ).1,
    )
}

/// Appends an adapter, where there is one.
fn push_adapter<E>(adapters: &mut Vec<Adapter<E>>, adapter: Option<Adapter<E>>)
    ensures
        final(adapters)@ == old(adapters)@ + optional_seq(adapter),
{
    match adapter {
        Some(adapter) => {
            adapters.push(adapter);
            assert(adapters@ =~= old(adapters)@ + seq![adapter]);
        },
        None => {
            assert(adapters@ =~= old(adapters)@ + Seq::<Adapter<E>>::empty());
        },
    }
}

/// Decides all that is generated for a plugin. `pkg_version` and
/// `pkg_name` are the version and the name of its package; the name is
/// needed only where the plugin names none itself.
pub fn arcdps_export<E>(input: ArcDpsGen<E>, pkg_version: &str, pkg_name: Option<&str>) -> (plan:
    ExportPlan<E>)
    requires
        input.name is None ==> pkg_name is Some,
    ensures
        plan.name@ == plugin_name(input.name, pkg_name),
        plan.build@ == pkg_version@.push('\0'),
        plan.out_name@ == plugin_name(input.name, pkg_name).push('\0'),
        plan.table == table_of(input),
        plan.table.imgui_version == IMGUI_VERSION,
        plan.adapters@ == adapters_of(input),
        plan.extras_init == plugin_extras_init(input),
        plan.init == input.init,
        plan.release == input.release,
{
    proof {
        reveal_strlit("\0");
    }
    let build = String::from_str(pkg_version).concat("\0");
    assert(build@ =~= pkg_version@.push('\0'));
    let name = match input.name {
        Some(name) => name,
        None => match pkg_name {
            Some(pkg_name) => String::from_str(pkg_name),
            None => unreached(),
        },
    };
    let out_name = name.clone().concat("\0");
    assert(out_name@ =~= name@.push('\0'));

    let (abstract_combat, cb_combat) = build_combat(input.raw_combat, input.combat);
    let (abstract_combat_local, cb_combat_local) = build_combat_local(
        input.raw_combat_local,
        input.combat_local,
    );
    let (abstract_imgui, cb_imgui) = build_imgui(input.raw_imgui, input.imgui);
    let (abstract_options_end, cb_options_end) = build_options_end(
        input.raw_options_end,
        input.options_end,
    );
    let (abstract_options_windows, cb_options_windows) = build_options_windows(
        input.raw_options_windows,
        input.options_windows,
    );
    let (abstract_wnd_filter, cb_wnd_filter) = build_wnd_filter(
        input.raw_wnd_filter,
        input.wnd_filter,
    );
    let (abstract_wnd_nofilter, cb_wnd_nofilter) = build_wnd_nofilter(
        input.raw_wnd_nofilter,
        input.wnd_nofilter,
    );
    let table = ExportTable {
        sig: input.sig,
        imgui_version: IMGUI_VERSION,
        combat: cb_combat,
        combat_local: cb_combat_local,
        imgui: cb_imgui,
        options_end: cb_options_end,
        options_windows: cb_options_windows,
        wnd_filter: cb_wnd_filter,
        wnd_nofilter: cb_wnd_nofilter,
    };

    let (abstract_extras_squad_update, extras_squad_update) = build_extras_squad_update(
        input.raw_unofficial_extras_squad_update,
        input.unofficial_extras_squad_update,
    );
    let (abstract_extras_chat_message, extras_chat_message) = build_extras_chat_message(
        input.raw_unofficial_extras_chat_message,
        input.unofficial_extras_chat_message,
    );
    let extras_init = build_extras_init(
        input.raw_unofficial_extras_init,
        input.unofficial_extras_init,
        extras_squad_update,
        extras_chat_message,
    );

    let mut adapters: Vec<Adapter<E>> = Vec::new();
    push_adapter(&mut adapters, abstract_combat);
    push_adapter(&mut adapters, abstract_combat_local);
    push_adapter(&mut adapters, abstract_imgui);
    push_adapter(&mut adapters, abstract_options_end);
    push_adapter(&mut adapters, abstract_options_windows);
    push_adapter(&mut adapters, abstract_wnd_filter);
    push_adapter(&mut adapters, abstract_wnd_nofilter);
    push_adapter(&mut adapters, abstract_extras_squad_update);
    push_adapter(&mut adapters, abstract_extras_chat_message);
    assert(adapters@ =~= adapters_of(input));

    ExportPlan {
        name,
        build,
        out_name,
        table,
        adapters,
        extras_init,
        init: input.init,
        release: input.release,
    }
}

/// What a plugin can name.
#[derive(Clone, Copy, Debug, PartialEq, Eq, Structural)]
pub enum Field {
    Name,
    Sig,
    Init,
    Release,
    RawCombat,
    Combat,
    RawCombatLocal,
    CombatLocal,
    RawImgui,
    Imgui,
    RawOptionsEnd,
    OptionsEnd,
    RawOptionsWindows,
    OptionsWindows,
    RawWndFilter,
    WndFilter,
    RawWndNofilter,
    WndNofilter,
    RawUnofficialExtrasSquadUpdate,
    UnofficialExtrasSquadUpdate,
    RawUnofficialExtrasChatMessage,
    UnofficialExtrasChatMessage,
    RawUnofficialExtrasInit,
    UnofficialExtrasInit,
}

impl Field {
    /// The word by which a plugin names the field.
    pub open spec fn name(self) -> Seq<char> {
        match self {
            Field::Name => "name"@,
            Field::Sig => "sig"@,
            Field::Init => "init"@,
            Field::Release => "release"@,
            Field::RawCombat => "raw_combat"@,
            Field::Combat => "combat"@,
            Field::RawCombatLocal => "raw_combat_local"@,
            Field::CombatLocal => "combat_local"@,
            Field::RawImgui => "raw_imgui"@,
            Field::Imgui => "imgui"@,
            Field::RawOptionsEnd => "raw_options_end"@,
            Field::OptionsEnd => "options_end"@,
            Field::RawOptionsWindows => "raw_options_windows"@,
            Field::OptionsWindows => "options_windows"@,
            Field::RawWndFilter => "raw_wnd_filter"@,
            Field::WndFilter => "wnd_filter"@,
            Field::RawWndNofilter => "raw_wnd_nofilter"@,
            Field::WndNofilter => "wnd_nofilter"@,
            Field::RawUnofficialExtrasSquadUpdate => "raw_unofficial_extras_squad_update"@,
            Field::UnofficialExtrasSquadUpdate => "unofficial_extras_squad_update"@,
            Field::RawUnofficialExtrasChatMessage => "raw_unofficial_extras_chat_message"@,
            Field::UnofficialExtrasChatMessage => "unofficial_extras_chat_message"@,
            Field::RawUnofficialExtrasInit => "raw_unofficial_extras_init"@,
            Field::UnofficialExtrasInit => "unofficial_extras_init"@,
        }
    }

    /// Whether the field holds a callback. The name of the plugin and its
    /// signature are none.
    pub open spec fn is_callback(self) -> bool {
        self != Field::Name && self != Field::Sig
    }

    /// The word by which a plugin names the field.
    pub fn as_str(self) -> (name: &'static str)
        ensures
            name@ == self.name(),
    {
        match self {
            Field::Name => "name",
            Field::Sig => "sig",
            Field::Init => "init",
            Field::Release => "release",
            Field::RawCombat => "raw_combat",
            Field::Combat => "combat",
            Field::RawCombatLocal => "raw_combat_local",
            Field::CombatLocal => "combat_local",
            Field::RawImgui => "raw_imgui",
            Field::Imgui => "imgui",
            Field::RawOptionsEnd => "raw_options_end",
            Field::OptionsEnd => "options_end",
            Field::RawOptionsWindows => "raw_options_windows",
            Field::OptionsWindows => "options_windows",
            Field::RawWndFilter => "raw_wnd_filter",
            Field::WndFilter => "wnd_filter",
            Field::RawWndNofilter => "raw_wnd_nofilter",
            Field::WndNofilter => "wnd_nofilter",
            Field::RawUnofficialExtrasSquadUpdate => "raw_unofficial_extras_squad_update",
            Field::UnofficialExtrasSquadUpdate => "unofficial_extras_squad_update",
            Field::RawUnofficialExtrasChatMessage => "raw_unofficial_extras_chat_message",
            Field::UnofficialExtrasChatMessage => "unofficial_extras_chat_message",
            Field::RawUnofficialExtrasInit => "raw_unofficial_extras_init",
            Field::UnofficialExtrasInit => "unofficial_extras_init",
        }
    }

    /// The field that a plugin names by a word, if it names one.
    pub fn from_name(name: &str) -> (field: Option<Field>)
        ensures
            field == field_of_name(name@),
            field matches Some(field) ==> field.name() == name@,
            field is None ==> forall|other: Field| other.name() != name@,
    {
        if str_eq(name, "name") {
            Some(Field::Name)
        } else if str_eq(name, "sig") {
            Some(Field::Sig)
        } else if str_eq(name, "init") {
            Some(Field::Init)
        } else if str_eq(name, "release") {
            Some(Field::Release)
        } else if str_eq(name, "raw_combat") {
            Some(Field::RawCombat)
        } else if str_eq(name, "combat") {
            Some(Field::Combat)
        } else if str_eq(name, "raw_combat_local") {
            Some(Field::RawCombatLocal)
        } else if str_eq(name, "combat_local") {
            Some(Field::CombatLocal)
        } else if str_eq(name, "raw_imgui") {
            Some(Field::RawImgui)
        } else if str_eq(name, "imgui") {
            Some(Field::Imgui)
        } else if str_eq(name, "raw_options_end") {
            Some(Field::RawOptionsEnd)
        } else if str_eq(name, "options_end") {
            Some(Field::OptionsEnd)
        } else if str_eq(name, "raw_options_windows") {
            Some(Field::RawOptionsWindows)
        } else if str_eq(name, "options_windows") {
            Some(Field::OptionsWindows)
        } else if str_eq(name, "raw_wnd_filter") {
            Some(Field::RawWndFilter)
        } else if str_eq(name, "wnd_filter") {
            Some(Field::WndFilter)
        } else if str_eq(name, "raw_wnd_nofilter") {
            Some(Field::RawWndNofilter)
        } else if str_eq(name, "wnd_nofilter") {
            Some(Field::WndNofilter)
        } else if str_eq(name, "raw_unofficial_extras_squad_update") {
            Some(Field::RawUnofficialExtrasSquadUpdate)
        } else if str_eq(name, "unofficial_extras_squad_update") {
            Some(Field::UnofficialExtrasSquadUpdate)
        } else if str_eq(name, "raw_unofficial_extras_chat_message") {
            Some(Field::RawUnofficialExtrasChatMessage)
        } else if str_eq(name, "unofficial_extras_chat_message") {
            Some(Field::UnofficialExtrasChatMessage)
        } else if str_eq(name, "raw_unofficial_extras_init") {
            Some(Field::RawUnofficialExtrasInit)
        } else if str_eq(name, "unofficial_extras_init") {
            Some(Field::UnofficialExtrasInit)
        } else {
            None
        }
    }
}

/// The field that a word names, if it names one.
pub open spec fn field_of_name(name: Seq<char>) -> Option<Field> {
    if name == "name"@ {
        Some(Field::Name)
    } else if name == "sig"@ {
        Some(Field::Sig)
    } else if name == "init"@ {
        Some(Field::Init)
    } else if name == "release"@ {
        Some(Field::Release)
    } else if name == "raw_combat"@ {
        Some(Field::RawCombat)
    } else if name == "combat"@ {
        Some(Field::Combat)
    } else if name == "raw_combat_local"@ {
        Some(Field::RawCombatLocal)
    } else if name == "combat_local"@ {
        Some(Field::CombatLocal)
    } else if name == "raw_imgui"@ {
        Some(Field::RawImgui)
    } else if name == "imgui"@ {
        Some(Field::Imgui)
    } else if name == "raw_options_end"@ {
        Some(Field::RawOptionsEnd)
    } else if name == "options_end"@ {
        Some(Field::OptionsEnd)
    } else if name == "raw_options_windows"@ {
        Some(Field::RawOptionsWindows)
    } else if name == "options_windows"@ {
        Some(Field::OptionsWindows)
    } else if name == "raw_wnd_filter"@ {
        Some(Field::RawWndFilter)
    } else if name == "wnd_filter"@ {
        Some(Field::WndFilter)
    } else if name == "raw_wnd_nofilter"@ {
        Some(Field::RawWndNofilter)
    } else if name == "wnd_nofilter"@ {
        Some(Field::WndNofilter)
    } else if name == "raw_unofficial_extras_squad_update"@ {
        Some(Field::RawUnofficialExtrasSquadUpdate)
    } else if name == "unofficial_extras_squad_update"@ {
        Some(Field::UnofficialExtrasSquadUpdate)
    } else if name == "raw_unofficial_extras_chat_message"@ {
        Some(Field::RawUnofficialExtrasChatMessage)
    } else if name == "unofficial_extras_chat_message"@ {
        Some(Field::UnofficialExtrasChatMessage)
    } else if name == "raw_unofficial_extras_init"@ {
        Some(Field::RawUnofficialExtrasInit)
    } else if name == "unofficial_extras_init"@ {
        Some(Field::UnofficialExtrasInit)
    } else {
        None
    }
}

/// What a plugin names after it has named one more callback.
pub open spec fn with_callback<E>(gen: ArcDpsGen<E>, field: Field, value: E) -> ArcDpsGen<E> {
    match field {
        Field::Name => gen,
        Field::Sig => gen,
        Field::Init => ArcDpsGen { init: Some(value), ..gen },
        Field::Release => ArcDpsGen { release: Some(value), ..gen },
        Field::RawCombat => ArcDpsGen { raw_combat: Some(value), ..gen },
        Field::Combat => ArcDpsGen { combat: Some(value), ..gen },
        Field::RawCombatLocal => ArcDpsGen { raw_combat_local: Some(value), ..gen },
        Field::CombatLocal => ArcDpsGen { combat_local: Some(value), ..gen },
        Field::RawImgui => ArcDpsGen { raw_imgui: Some(value), ..gen },
        Field::Imgui => ArcDpsGen { imgui: Some(value), ..gen },
        Field::RawOptionsEnd => ArcDpsGen { raw_options_end: Some(value), ..gen },
        Field::OptionsEnd => ArcDpsGen { options_end: Some(value), ..gen },
        Field::RawOptionsWindows => ArcDpsGen { raw_options_windows: Some(value), ..gen },
        Field::OptionsWindows => ArcDpsGen { options_windows: Some(value), ..gen },
        Field::RawWndFilter => ArcDpsGen { raw_wnd_filter: Some(value), ..gen },
        Field::WndFilter => ArcDpsGen { wnd_filter: Some(value), ..gen },
        Field::RawWndNofilter => ArcDpsGen { raw_wnd_nofilter: Some(value), ..gen },
        Field::WndNofilter => ArcDpsGen { wnd_nofilter: Some(value), ..gen },
        Field::RawUnofficialExtrasSquadUpdate => ArcDpsGen { raw_unofficial_extras_squad_update: Some(value), ..gen },
        Field::UnofficialExtrasSquadUpdate => ArcDpsGen { unofficial_extras_squad_update: Some(value), ..gen },
        Field::RawUnofficialExtrasChatMessage => ArcDpsGen { raw_unofficial_extras_chat_message: Some(value), ..gen },
        Field::UnofficialExtrasChatMessage => ArcDpsGen { unofficial_extras_chat_message: Some(value), ..gen },
        Field::RawUnofficialExtrasInit => ArcDpsGen { raw_unofficial_extras_init: Some(value), ..gen },
        Field::UnofficialExtrasInit => ArcDpsGen { unofficial_extras_init: Some(value), ..gen },
    }
}

impl<E> ArcDpsGen<E> {
    /// A plugin that names its signature and nothing else.
    pub fn new(sig: E) -> (gen: ArcDpsGen<E>)
        ensures
            gen == nothing_named(sig),
    {
        ArcDpsGen {
            name: None,
            sig,
            init: None,
            release: None,
            raw_combat: None,
            combat: None,
            raw_combat_local: None,
            combat_local: None,
            raw_imgui: None,
            imgui: None,
            raw_options_end: None,
            options_end: None,
            raw_options_windows: None,
            options_windows: None,
            raw_wnd_filter: None,
            wnd_filter: None,
            raw_wnd_nofilter: None,
            wnd_nofilter: None,
            raw_unofficial_extras_squad_update: None,
            unofficial_extras_squad_update: None,
            raw_unofficial_extras_chat_message: None,
            unofficial_extras_chat_message: None,
            raw_unofficial_extras_init: None,
            unofficial_extras_init: None,
        }
    }

    /// Names a callback. A callback that was named before is replaced. The
    /// name of the plugin and its signature are no callbacks: for them
    /// nothing changes and the answer is `false`.
    pub fn set_callback(&mut self, field: Field, value: E) -> (set: bool)
        ensures
            set == field.is_callback(),
            *final(self) == with_callback(*old(self), field, value),
    {
        match field {
            Field::Name => {
                return false;
            },
            Field::Sig => {
                return false;
            },
            Field::Init => {
                self.init = Some(value);
            },
            Field::Release => {
                self.release = Some(value);
            },
            Field::RawCombat => {
                self.raw_combat = Some(value);
            },
            Field::Combat => {
                self.combat = Some(value);
            },
            Field::RawCombatLocal => {
                self.raw_combat_local = Some(value);
            },
            Field::CombatLocal => {
                self.combat_local = Some(value);
            },
            Field::RawImgui => {
                self.raw_imgui = Some(value);
            },
            Field::Imgui => {
                self.imgui = Some(value);
            },
            Field::RawOptionsEnd => {
                self.raw_options_end = Some(value);
            },
            Field::OptionsEnd => {
                self.options_end = Some(value);
            },
            Field::RawOptionsWindows => {
                self.raw_options_windows = Some(value);
            },
            Field::OptionsWindows => {
                self.options_windows = Some(value);
            },
            Field::RawWndFilter => {
                self.raw_wnd_filter = Some(value);
            },
            Field::WndFilter => {
                self.wnd_filter = Some(value);
            },
            Field::RawWndNofilter => {
                self.raw_wnd_nofilter = Some(value);
            },
            Field::WndNofilter => {
                self.wnd_nofilter = Some(value);
            },
            Field::RawUnofficialExtrasSquadUpdate => {
                self.raw_unofficial_extras_squad_update = Some(value);
            },
            Field::UnofficialExtrasSquadUpdate => {
                self.unofficial_extras_squad_update = Some(value);
            },
            Field::RawUnofficialExtrasChatMessage => {
                self.raw_unofficial_extras_chat_message = Some(value);
            },
            Field::UnofficialExtrasChatMessage => {
                self.unofficial_extras_chat_message = Some(value);
            },
            Field::RawUnofficialExtrasInit => {
                self.raw_unofficial_extras_init = Some(value);
            },
            Field::UnofficialExtrasInit => {
                self.unofficial_extras_init = Some(value);
            },
        }
        true
    }
}

/// A plugin that names its signature and nothing else.
pub open spec fn nothing_named<E>(sig: E) -> ArcDpsGen<E> {
    ArcDpsGen {
        name: None,
        sig,
        init: None,
        release: None,
        raw_combat: None,
        combat: None,
        raw_combat_local: None,
        combat_local: None,
        raw_imgui: None,
        imgui: None,
        raw_options_end: None,
        options_end: None,
        raw_options_windows: None,
        options_windows: None,
        raw_wnd_filter: None,
        wnd_filter: None,
        raw_wnd_nofilter: None,
        wnd_nofilter: None,
        raw_unofficial_extras_squad_update: None,
        unofficial_extras_squad_update: None,
        raw_unofficial_extras_chat_message: None,
        unofficial_extras_chat_message: None,
        raw_unofficial_extras_init: None,
        unofficial_extras_init: None,
    }
}

/// No two fields go by the same word, so the word tells the field.
pub proof fn lemma_field_names_differ(field: Field)
    ensures
        field_of_name(field.name()) == Some(field),
{
    reveal_strlit("name");
    reveal_strlit("sig");
    reveal_strlit("init");
    reveal_strlit("release");
    reveal_strlit("raw_combat");
    reveal_strlit("combat");
    reveal_strlit("raw_combat_local");
    reveal_strlit("combat_local");
    reveal_strlit("raw_imgui");
    reveal_strlit("imgui");
    reveal_strlit("raw_options_end");
    reveal_strlit("options_end");
    reveal_strlit("raw_options_windows");
    reveal_strlit("options_windows");
    reveal_strlit("raw_wnd_filter");
    reveal_strlit("wnd_filter");
    reveal_strlit("raw_wnd_nofilter");
    reveal_strlit("wnd_nofilter");
    reveal_strlit("raw_unofficial_extras_squad_update");
    reveal_strlit("unofficial_extras_squad_update");
    reveal_strlit("raw_unofficial_extras_chat_message");
    reveal_strlit("unofficial_extras_chat_message");
    reveal_strlit("raw_unofficial_extras_init");
    reveal_strlit("unofficial_extras_init");
    // words of one length differ in their first or in their fifth letter,
    // but for the two pairs below
    assert("name"@.len() == 4 && "name"@[0] == 'n');
    assert("sig"@.len() == 3 && "sig"@[0] == 's');
    assert("init"@.len() == 4 && "init"@[0] == 'i');
    assert("release"@.len() == 7 && "release"@[0] == 'r' && "release"@[4] == 'a');
    assert("raw_combat"@.len() == 10 && "raw_combat"@[0] == 'r' && "raw_combat"@[4] == 'c');
    assert("combat"@.len() == 6 && "combat"@[0] == 'c' && "combat"@[4] == 'a');
    assert("raw_combat_local"@.len() == 16 && "raw_combat_local"@[0] == 'r' && "raw_combat_local"@[4] == 'c');
    assert("combat_local"@.len() == 12 && "combat_local"@[0] == 'c' && "combat_local"@[4] == 'a');
    assert("raw_imgui"@.len() == 9 && "raw_imgui"@[0] == 'r' && "raw_imgui"@[4] == 'i');
    assert("imgui"@.len() == 5 && "imgui"@[0] == 'i' && "imgui"@[4] == 'i');
    assert("raw_options_end"@.len() == 15 && "raw_options_end"@[0] == 'r' && "raw_options_end"@[4] == 'o');
    assert("options_end"@.len() == 11 && "options_end"@[0] == 'o' && "options_end"@[4] == 'o');
    assert("raw_options_windows"@.len() == 19 && "raw_options_windows"@[0] == 'r' && "raw_options_windows"@[4] == 'o');
    assert("options_windows"@.len() == 15 && "options_windows"@[0] == 'o' && "options_windows"@[4] == 'o');
    assert("raw_wnd_filter"@.len() == 14 && "raw_wnd_filter"@[0] == 'r' && "raw_wnd_filter"@[4] == 'w');
    assert("wnd_filter"@.len() == 10 && "wnd_filter"@[0] == 'w' && "wnd_filter"@[4] == 'f');
    assert("raw_wnd_nofilter"@.len() == 16 && "raw_wnd_nofilter"@[0] == 'r' && "raw_wnd_nofilter"@[4] == 'w');
    assert("wnd_nofilter"@.len() == 12 && "wnd_nofilter"@[0] == 'w' && "wnd_nofilter"@[4] == 'n');
    assert("raw_unofficial_extras_squad_update"@.len() == 34 && "raw_unofficial_extras_squad_update"@[0] == 'r' && "raw_unofficial_extras_squad_update"@[4] == 'u');
    assert("unofficial_extras_squad_update"@.len() == 30 && "unofficial_extras_squad_update"@[0] == 'u' && "unofficial_extras_squad_update"@[4] == 'f');
    assert("raw_unofficial_extras_chat_message"@.len() == 34 && "raw_unofficial_extras_chat_message"@[0] == 'r' && "raw_unofficial_extras_chat_message"@[4] == 'u');
    assert("unofficial_extras_chat_message"@.len() == 30 && "unofficial_extras_chat_message"@[0] == 'u' && "unofficial_extras_chat_message"@[4] == 'f');
    assert("raw_unofficial_extras_init"@.len() == 26 && "raw_unofficial_extras_init"@[0] == 'r' && "raw_unofficial_extras_init"@[4] == 'u');
    assert("unofficial_extras_init"@.len() == 22 && "unofficial_extras_init"@[0] == 'u' && "unofficial_extras_init"@[4] == 'f');
    assert("raw_unofficial_extras_squad_update"@[22] == 's');
    assert("raw_unofficial_extras_chat_message"@[22] == 'c');
    assert("unofficial_extras_squad_update"@[18] == 's');
    assert("unofficial_extras_chat_message"@[18] == 'c');
}

} // verus!
