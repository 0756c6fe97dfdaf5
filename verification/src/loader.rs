//! Resolution of the extension entry points.
//!
//! Every entry point is looked up by name, at the instance or at the
//! device. A short table names the entry points that the instance answers
//! for; all others belong to the device. An entry point without an address
//! is reported by name when the table is checked, before anything is
//! called through it.

use crate::error::{BootstrapError, BootstrapErrorView};
use crate::search::{first_true, lemma_first_true_absent, lemma_first_true_found};
use vstd::prelude::*;

verus! {

/// Which loader resolves an entry point.
#[derive(Debug, Clone, Copy, PartialEq, Eq, Structural)]
pub enum LoaderKind {
    /// The instance-level lookup.
    Instance,
    /// The device-level lookup.
    Device,
}

/// Name of the entry point that reports video capabilities.
pub open spec fn capabilities_symbol() -> Seq<char> {
    "vkGetPhysicalDeviceVideoCapabilitiesKHR"@
}

/// Name of the entry point that reports video format properties.
pub open spec fn format_properties_symbol() -> Seq<char> {
    "vkGetPhysicalDeviceVideoFormatPropertiesKHR"@
}

/// Name of the entry point that creates a video session.
pub open spec fn create_session_symbol() -> Seq<char> {
    "vkCreateVideoSessionKHR"@
}

/// The entry points that the instance-level loader resolves.
pub open spec fn instance_level_symbols() -> Seq<Seq<char>> {
    seq![capabilities_symbol(), format_properties_symbol()]
}

/// The loader of an entry point: the instance for the names in
/// `instance_level_symbols`, the device for every other name.
pub open spec fn spec_loader_for(symbol: Seq<char>) -> LoaderKind {
    if instance_level_symbols().contains(symbol) {
        LoaderKind::Instance
    } else {
        LoaderKind::Device
    }
}

/// The view of a list of names.
pub open spec fn names_view(names: Seq<String>) -> Seq<Seq<char>> {
    names.map_values(|name: String| name@)
}

/// The table of entry points that the instance-level loader resolves.
pub fn instance_level_table() -> (table: Vec<String>)
    ensures
        names_view(table@) == instance_level_symbols(),
{
    let mut table: Vec<String> = Vec::new();
    table.push("vkGetPhysicalDeviceVideoCapabilitiesKHR".to_owned());
    table.push("vkGetPhysicalDeviceVideoFormatPropertiesKHR".to_owned());
    assert(names_view(table@) =~= instance_level_symbols());
    table
}

/// Whether a list of names holds a name.
fn holds_name(names: &Vec<String>, wanted: &String) -> (held: bool)
    ensures
        held == names_view(names@).contains(wanted@),
{
    let mut at: usize = 0;
    while at < names.len()
        invariant
            at <= names@.len(),
            forall|j: int| 0 <= j < at ==> names_view(names@)[j] != wanted@,
        decreases names@.len() - at,
    {
        if names[at] == *wanted {
            assert(names_view(names@)[at as int] == wanted@);
            return true;
        }
        at += 1;
    }
    false
}

/// Names the loader that resolves an entry point.
pub fn loader_for(symbol: &str) -> (kind: LoaderKind)
    ensures
        kind == spec_loader_for(symbol@),
{
    let wanted = symbol.to_owned();
    let table = instance_level_table();
    if holds_name(&table, &wanted) {
        LoaderKind::Instance
    } else {
        LoaderKind::Device
    }
}

/// What a lookup gave for one entry point. Address zero stands for "no
/// address".
#[derive(Debug, Clone, PartialEq, Eq)]
pub struct Resolution {
    /// Name of the entry point.
    pub symbol: String,
    /// The address that the loader returned, or zero.
    pub address: usize,
}

/// A resolution as contracts see it.
pub struct ResolutionView {
    pub symbol: Seq<char>,
    pub address: usize,
}

impl View for Resolution {
    type V = ResolutionView;

    open spec fn view(&self) -> ResolutionView {
        ResolutionView { symbol: self.symbol@, address: self.address }
    }
}

/// The view of a list of resolutions.
pub open spec fn resolutions_view(entries: Seq<Resolution>) -> Seq<ResolutionView> {
    entries.map_values(|entry: Resolution| entry@)
}

/// The outcome of one lookup: the address where there is one, else the
/// failure that names the entry point.
pub open spec fn spec_resolve(symbol: Seq<char>, address: usize) -> Result<
    usize,
    BootstrapErrorView,
> {
    if address != 0 {
        Ok(address)
    } else {
        Err(BootstrapErrorView::MissingExtensionFunction { symbol })
    }
}

/// Judges one lookup.
///
/// A nonzero address is handed on. Address zero gives
/// `MissingExtensionFunction` with the entry point's name.
pub fn resolve(symbol: &str, address: usize) -> (outcome: Result<usize, BootstrapError>)
    ensures
        match outcome {
            Ok(found) => spec_resolve(symbol@, address) == Ok::<usize, BootstrapErrorView>(found),
            Err(error) => spec_resolve(symbol@, address) == Err::<usize, BootstrapErrorView>(
                error@,
            ),
        },
{
    if address != 0 {
        Ok(address)
    } else {
        Err(BootstrapError::MissingExtensionFunction { symbol: symbol.to_owned() })
    }
}

/// For each resolution, whether it lacks an address.
pub open spec fn unresolved_marks(entries: Seq<ResolutionView>) -> Seq<bool> {
    Seq::new(entries.len(), |i: int| entries[i].address == 0)
}

/// Whether a list of resolutions has an entry of the given name.
pub open spec fn provides(entries: Seq<ResolutionView>, symbol: Seq<char>) -> bool {
    exists|i: int| 0 <= i < entries.len() && (#[trigger] entries[i]).symbol == symbol
}

/// The judgement on a whole list of resolutions.
///
/// The first entry without an address fails the list, by its name. A list
/// in which every entry has an address must still provide the two entry
/// points that the bootstrap calls; the first of them that is absent fails
/// the list, by its name.
pub open spec fn table_verdict(entries: Seq<ResolutionView>) -> Result<(), BootstrapErrorView> {
    match first_true(unresolved_marks(entries)) {
        Some(at) => Err(BootstrapErrorView::MissingExtensionFunction { symbol: entries[at].symbol }),
        None => if !provides(entries, capabilities_symbol()) {
            Err(BootstrapErrorView::MissingExtensionFunction { symbol: capabilities_symbol() })
        } else if !provides(entries, create_session_symbol()) {
            Err(BootstrapErrorView::MissingExtensionFunction { symbol: create_session_symbol() })
        } else {
            Ok(())
        },
    }
}

/// Each mark of `unresolved_marks` says of its own entry whether it lacks
/// an address.
proof fn lemma_unresolved_marks(entries: Seq<ResolutionView>)
    ensures
        unresolved_marks(entries).len() == entries.len(),
        forall|j: int|
            0 <= j < entries.len() ==> #[trigger] unresolved_marks(entries)[j] == (
            entries[j].address == 0),
{
}

/// Whether a list of resolutions has an entry of the given name.
fn provides_symbol(entries: &Vec<Resolution>, wanted: &String) -> (held: bool)
    ensures
        held == provides(resolutions_view(entries@), wanted@),
{
    let ghost view = resolutions_view(entries@);
    let mut at: usize = 0;
    while at < entries.len()
        invariant
            at <= entries@.len(),
            view == resolutions_view(entries@),
            forall|j: int| 0 <= j < at ==> (#[trigger] view[j]).symbol != wanted@,
        decreases entries@.len() - at,
    {
        if entries[at].symbol == *wanted {
            assert(view[at as int].symbol == wanted@);
            return true;
        }
        assert(view[at as int].symbol != wanted@);
        at += 1;
    }
    false
}

/// Judges a whole list of resolutions, as `table_verdict` says: each entry
/// by `resolve`, in order, and then the presence of the two entry points
/// that the bootstrap calls.
pub fn check_resolutions(entries: &Vec<Resolution>) -> (verdict: Result<(), BootstrapError>)
    ensures
        match verdict {
            Ok(()) => table_verdict(resolutions_view(entries@)) == Ok::<(), BootstrapErrorView>(()),
            Err(error) => table_verdict(resolutions_view(entries@)) == Err::<
                (),
                BootstrapErrorView,
            >(error@),
        },
{
    let ghost view = resolutions_view(entries@);
    let ghost marks = unresolved_marks(view);
    proof {
        lemma_unresolved_marks(view);
    }
    let mut at: usize = 0;
    while at < entries.len()
        invariant
            at <= entries@.len(),
            view == resolutions_view(entries@),
            marks == unresolved_marks(view),
            marks.len() == entries@.len(),
            forall|j: int| 0 <= j < marks.len() ==> #[trigger] marks[j] == (view[j].address == 0),
            forall|j: int| 0 <= j < at ==> !marks[j],
        decreases entries@.len() - at,
    {
        assert(view[at as int] == entries@[at as int]@);
        match resolve(entries[at].symbol.as_str(), entries[at].address) {
            Ok(_) => {
                assert(!marks[at as int]);
            },
            Err(error) => {
                proof {
                    assert(marks[at as int]);
                    lemma_first_true_found(marks, at as int);
                }
                return Err(error);
            },
        }
        at += 1;
    }
    proof {
        lemma_first_true_absent(marks);
    }
    let capabilities = "vkGetPhysicalDeviceVideoCapabilitiesKHR".to_owned();
    if !provides_symbol(entries, &capabilities) {
        return Err(BootstrapError::MissingExtensionFunction { symbol: capabilities });
    }
    let create_session = "vkCreateVideoSessionKHR".to_owned();
    if !provides_symbol(entries, &create_session) {
        return Err(BootstrapError::MissingExtensionFunction { symbol: create_session });
    }
    Ok(())
}

/// Exactly two entry points are routed to the instance-level loader, the
/// capability query and the format query, and they are two different
/// names. Every other name is routed to the device-level loader.
pub proof fn law_two_symbols_go_to_the_instance(symbol: Seq<char>)
    ensures
        instance_level_symbols().len() == 2,
        capabilities_symbol() != format_properties_symbol(),
        spec_loader_for(symbol) == LoaderKind::Instance <==> (symbol == capabilities_symbol()
            || symbol == format_properties_symbol()),
        spec_loader_for(symbol) == LoaderKind::Device <==> (symbol != capabilities_symbol()
            && symbol != format_properties_symbol()),
{
    reveal_strlit("vkGetPhysicalDeviceVideoCapabilitiesKHR");
    reveal_strlit("vkGetPhysicalDeviceVideoFormatPropertiesKHR");
    assert(capabilities_symbol().len() == 39);
    assert(format_properties_symbol().len() == 43);
    let table = instance_level_symbols();
    assert(table[0] == capabilities_symbol());
    assert(table[1] == format_properties_symbol());
}

/// An entry point without an address is reported by its name: where some
/// entry lacks an address, the list fails with `MissingExtensionFunction`
/// for the first such entry.
pub proof fn law_missing_symbol_is_named(entries: Seq<ResolutionView>, at: int)
    requires
        0 <= at < entries.len(),
        entries[at].address == 0,
        forall|j: int| 0 <= j < at ==> (#[trigger] entries[j]).address != 0,
    ensures
        table_verdict(entries) == Err::<(), BootstrapErrorView>(
            BootstrapErrorView::MissingExtensionFunction { symbol: entries[at].symbol },
        ),
{
    lemma_unresolved_marks(entries);
    lemma_first_true_found(unresolved_marks(entries), at);
}

} // verus!
