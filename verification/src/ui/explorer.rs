//! The explorer panel's catalogue of libraries, instruments and sounds.
use vstd::prelude::*;

verus! {

/// Status of a catalogue entry.
#[derive(Clone, Copy, Debug, PartialEq, Eq, Structural)]
pub enum ItemState {
    Ready,
    Pending,
    Muted,
}

/// One catalogue entry: a label, a status line and a state.
#[derive(Clone, Debug)]
pub struct ExplorerItem {
    pub label: &'static str,
    pub meta: &'static str,
    pub state: ItemState,
}

/// A titled group of catalogue entries.
#[derive(Clone, Debug)]
pub struct ExplorerSection {
    pub title: &'static str,
    pub items: Vec<ExplorerItem>,
}

/// The explorer panel.
pub struct ExplorerView {
    sections: Vec<ExplorerSection>,
}

/// An entry by its texts and state.
pub open spec fn item_view(item: ExplorerItem) -> (Seq<char>, Seq<char>, ItemState) {
    (item.label@, item.meta@, item.state)
}

/// A section by its title and entries.
pub open spec fn section_view(section: ExplorerSection) -> (Seq<char>, Seq<(Seq<char>, Seq<char>, ItemState)>) {
    (section.title@, section.items@.map_values(|item: ExplorerItem| item_view(item)))
}

/// The catalogue the explorer starts with.
pub open spec fn default_catalogue() -> Seq<(Seq<char>, Seq<(Seq<char>, Seq<char>, ItemState)>)> {
    seq![
        ("Libraries"@, seq![
            ("Drumkits Folder"@, "Not set"@, ItemState::Pending),
            ("VST Search Paths"@, "Not set"@, ItemState::Pending),
            ("Samples Library"@, "Included"@, ItemState::Ready),
        ]),
        ("Instruments"@, seq![
            ("Built-in Devices"@, "3 available"@, ItemState::Ready),
            ("VST Plugins"@, "Scan later"@, ItemState::Muted),
            ("Generators"@, "Coming soon"@, ItemState::Muted),
        ]),
        ("Sounds"@, seq![
            ("Included Kits"@, "Factory"@, ItemState::Ready),
            ("One-shots"@, "Factory"@, ItemState::Ready),
            ("Loops"@, "Factory"@, ItemState::Ready),
        ]),
    ]
}

impl ExplorerItem {
    /// A catalogue entry with a status.
    pub fn status(label: &'static str, meta: &'static str, state: ItemState) -> (r: ExplorerItem)
        ensures
            r == (ExplorerItem { label, meta, state }),
    {
        ExplorerItem { label, meta, state }
    }
}

impl ExplorerSection {
    /// A titled section.
    pub fn new(title: &'static str, items: Vec<ExplorerItem>) -> (r: ExplorerSection)
        ensures
            r == (ExplorerSection { title, items }),
    {
        ExplorerSection { title, items }
    }
}

fn three_items(a: ExplorerItem, b: ExplorerItem, c: ExplorerItem) -> (r: Vec<ExplorerItem>)
    ensures
        r@ == seq![a, b, c],
{
    let mut v: Vec<ExplorerItem> = Vec::new();
    v.push(a);
    v.push(b);
    v.push(c);
    assert(v@ =~= seq![a, b, c]);
    v
}

impl ExplorerView {
    /// The sections, by title and entries.
    pub closed spec fn catalogue(self) -> Seq<(Seq<char>, Seq<(Seq<char>, Seq<char>, ItemState)>)> {
        self.sections@.map_values(|s: ExplorerSection| section_view(s))
    }

    /// The explorer with its starting catalogue.
    pub fn new() -> (r: ExplorerView)
        ensures
            r.catalogue() == default_catalogue(),
    {
        let libraries = ExplorerSection::new(
            "Libraries",
            three_items(
                ExplorerItem::status("Drumkits Folder", "Not set", ItemState::Pending),
                ExplorerItem::status("VST Search Paths", "Not set", ItemState::Pending),
                ExplorerItem::status("Samples Library", "Included", ItemState::Ready),
            ),
        );
        let instruments = ExplorerSection::new(
            "Instruments",
            three_items(
                ExplorerItem::status("Built-in Devices", "3 available", ItemState::Ready),
                ExplorerItem::status("VST Plugins", "Scan later", ItemState::Muted),
                ExplorerItem::status("Generators", "Coming soon", ItemState::Muted),
            ),
        );
        let sounds = ExplorerSection::new(
            "Sounds",
            three_items(
                ExplorerItem::status("Included Kits", "Factory", ItemState::Ready),
                ExplorerItem::status("One-shots", "Factory", ItemState::Ready),
                ExplorerItem::status("Loops", "Factory", ItemState::Ready),
            ),
        );
        let mut sections: Vec<ExplorerSection> = Vec::new();
        sections.push(libraries);
        sections.push(instruments);
        sections.push(sounds);
        let r = ExplorerView { sections };
        assert(r.catalogue()[0].1 =~= default_catalogue()[0].1);
        assert(r.catalogue()[1].1 =~= default_catalogue()[1].1);
        assert(r.catalogue()[2].1 =~= default_catalogue()[2].1);
        assert(r.catalogue() =~= default_catalogue());
        r
    }

    /// The sections of the panel.
    pub fn sections(&self) -> (r: &[ExplorerSection])
        ensures
            r@.map_values(|s: ExplorerSection| section_view(s)) == self.catalogue(),
    {
        self.sections.as_slice()
    }
}

impl Default for ExplorerView {
    fn default() -> (r: ExplorerView)
        ensures
            r.catalogue() == default_catalogue(),
    {
        Self::new()
    }
}

} // verus!
