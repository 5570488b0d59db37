//! The checklist itself: the rows in the order of the material list, the flag
//! on each that the user ticks, and what each message does to them.

use crate::csv_text::{csv_headers, csv_records, read_headers, read_records};
use crate::material::{Material, MaterialView};
use crate::material_list::{
    columns_of, failures_of, lemma_rows_and_failures, lemma_rows_start_unticked,
    materials_from_records, materials_of,
};
use crate::notice::Notice;
use crate::quantity::{format_item_count, quantity_text};
use vstd::prelude::*;

verus! {

/// How the prompt for a material list ended.
#[derive(Debug)]
pub enum FileOutcome {
    /// The user chose no file.
    Cancelled,
    /// The chosen file could not be read as text.
    Unreadable,
    /// The text of the chosen file.
    Contents(String),
}

/// What the user asks of the checklist.
#[derive(Debug)]
pub enum Message {
    /// Flip the flag of the row at this position.
    ToggleCheck(usize),
    /// Take the rows from a material list; the prompt for the file has ended
    /// as given.
    LoadLitematic(FileOutcome),
}

/// One row as it is shown.
#[derive(Debug)]
pub struct DisplayRow {
    /// Position of the row, which a tick on it reports back.
    pub index: usize,
    pub checked: bool,
    pub name: String,
    /// The count in boxes, stacks and items.
    pub quantity: String,
}

/// What a shown row holds, as plain values.
pub struct DisplayRowView {
    pub index: int,
    pub checked: bool,
    pub name: Seq<char>,
    pub quantity: Seq<char>,
}

impl View for DisplayRow {
    type V = DisplayRowView;

    open spec fn view(&self) -> DisplayRowView {
        DisplayRowView {
            index: self.index as int,
            checked: self.checked,
            name: self.name@,
            quantity: self.quantity@,
        }
    }
}

impl DeepView for DisplayRow {
    type V = DisplayRowView;

    open spec fn deep_view(&self) -> DisplayRowView {
        self@
    }
}

/// The rows with the flag at `index` flipped; unchanged where there is no such
/// row.
pub open spec fn toggled(rows: Seq<MaterialView>, index: int) -> Seq<MaterialView> {
    if 0 <= index < rows.len() {
        rows.update(index, MaterialView { checked: !rows[index].checked, ..rows[index] })
    } else {
        rows
    }
}

/// The rows that a material list with this text gives.
pub open spec fn rows_of_text(text: Seq<char>) -> Seq<MaterialView> {
    materials_of(columns_of(csv_headers(text)), csv_records(text))
}

/// How many records of a material list with this text give no row.
pub open spec fn failures_of_text(text: Seq<char>) -> nat {
    failures_of(columns_of(csv_headers(text)), csv_records(text))
}

/// The rows after a message, from the rows before it.
pub open spec fn rows_after(rows: Seq<MaterialView>, message: Message) -> Seq<MaterialView> {
    match message {
        Message::ToggleCheck(index) => toggled(rows, index as int),
        Message::LoadLitematic(FileOutcome::Contents(text)) => rows_of_text(text@),
        Message::LoadLitematic(_) => rows,
    }
}

/// What the user is told after a message.
pub open spec fn notices_after(message: Message) -> Seq<Notice> {
    match message {
        Message::ToggleCheck(_) => Seq::empty(),
        Message::LoadLitematic(FileOutcome::Cancelled) => seq![Notice::NoFileSelected],
        Message::LoadLitematic(FileOutcome::Unreadable) => seq![Notice::ReadFailed],
        Message::LoadLitematic(FileOutcome::Contents(text)) => Seq::new(
            failures_of_text(text@),
            |i: int| Notice::EntryFailed,
        ),
    }
}

/// How a row is shown at position `index`.
pub open spec fn shown(row: MaterialView, index: int) -> DisplayRowView {
    DisplayRowView {
        index: index,
        checked: row.checked,
        name: row.name,
        quantity: quantity_text(row.count),
    }
}

/// The checklist: rows in the order of the material list they were read from.
#[derive(Debug)]
pub struct Listmatica {
    pub materials: Vec<Material>,
}

impl View for Listmatica {
    type V = Seq<MaterialView>;

    open spec fn view(&self) -> Seq<MaterialView> {
        self.materials.deep_view()
    }
}

impl Default for Listmatica {
    fn default() -> (list: Listmatica)
        ensures
            list@ == Seq::<MaterialView>::empty(),
    {
        Listmatica::new()
    }
}

impl Listmatica {
    /// A checklist without rows.
    pub fn new() -> (list: Listmatica)
        ensures
            list@ == Seq::<MaterialView>::empty(),
    {
        Listmatica { materials: Vec::new() }
    }

    /// Ticks the row at `index` if it is unticked and unticks it if it is
    /// ticked. An index past the last row changes nothing.
    pub fn toggle_check(&mut self, index: usize)
        ensures
            final(self)@ == toggled(old(self)@, index as int),
    {
        if index < self.materials.len() {
            let checked = self.materials[index].checked;
            self.materials[index].checked = !checked;
        }
    }

    /// Replaces the rows by those of the material list with this text, and
    /// returns how many of its records gave no row. Nothing of the rows before
    /// is kept, whether or not any record gave a row.
    pub fn load_text(&mut self, text: &str) -> (failed: usize)
        ensures
            final(self)@ == rows_of_text(text@),
            failed == failures_of_text(text@),
    {
        let headers = read_headers(text);
        let records = read_records(text);
        let (materials, failed) = materials_from_records(&headers, &records);
        self.materials = materials;
        failed
    }

    /// Carries out a message and returns what the user is to be told.
    ///
    /// A tick flips one flag. A load that ended without a text leaves the rows
    /// as they are and gives one notice; a load with a text replaces the rows
    /// and gives one notice for each record that was left out.
    pub fn update(&mut self, message: Message) -> (notices: Vec<Notice>)
        ensures
            final(self)@ == rows_after(old(self)@, message),
            notices@ == notices_after(message),
    {
        let mut notices: Vec<Notice> = Vec::new();
        match message {
            Message::ToggleCheck(index) => {
                self.toggle_check(index);
            },
            Message::LoadLitematic(FileOutcome::Cancelled) => {
                notices.push(Notice::NoFileSelected);
            },
            Message::LoadLitematic(FileOutcome::Unreadable) => {
                notices.push(Notice::ReadFailed);
            },
            Message::LoadLitematic(FileOutcome::Contents(text)) => {
                let failed = self.load_text(text.as_str());
                let mut i: usize = 0;
                while i < failed
                    invariant
                        i <= failed,
                        notices@ == Seq::new(i as nat, |k: int| Notice::EntryFailed),
                    decreases failed - i,
                {
                    notices.push(Notice::EntryFailed);
                    i += 1;
                }
            },
        }
        notices
    }

    /// The rows as they are shown: each with its position, its flag, its name
    /// and its count in boxes, stacks and items.
    pub fn rows(&self) -> (rows: Vec<DisplayRow>)
        ensures
            rows.deep_view() == Seq::new(self@.len(), |i: int| shown(self@[i], i)),
    {
        let mut rows: Vec<DisplayRow> = Vec::new();
        let mut i: usize = 0;
        while i < self.materials.len()
            invariant
                i <= self.materials.len(),
                self@.len() == self.materials.len(),
                rows.deep_view() == Seq::new(i as nat, |k: int| shown(self@[k], k)),
            decreases self.materials.len() - i,
        {
            let material = &self.materials[i];
            let ghost before = rows.deep_view();
            rows.push(
                DisplayRow {
                    index: i,
                    checked: material.checked,
                    name: material.name.clone(),
                    quantity: format_item_count(material.count),
                },
            );
            assert(rows.deep_view() =~= before.push(shown(self@[i as int], i as int)));
            i += 1;
        }
        rows
    }
}

/// A tick flips the flag of the row it names and nothing else: the rows keep
/// their number and order, every row keeps its name and count, and every other
/// row keeps its flag. A tick past the last row changes nothing at all.
pub proof fn lemma_toggle_flips_one_flag(rows: Seq<MaterialView>, index: int)
    ensures
        toggled(rows, index).len() == rows.len(),
        forall|i: int|
            0 <= i < rows.len() ==> {
                let row = #[trigger] toggled(rows, index)[i];
                &&& row.name == rows[i].name
                &&& row.count == rows[i].count
                &&& row.checked == if i == index {
                    !rows[i].checked
                } else {
                    rows[i].checked
                }
            },
        !(0 <= index < rows.len()) ==> toggled(rows, index) == rows,
{
}

/// A load that ends without a text, because the user chose no file or the
/// file could not be read, leaves every row as it was, flags included.
pub proof fn lemma_load_without_text_keeps_rows(rows: Seq<MaterialView>)
    ensures
        rows_after(rows, Message::LoadLitematic(FileOutcome::Cancelled)) == rows,
        rows_after(rows, Message::LoadLitematic(FileOutcome::Unreadable)) == rows,
{
}

/// A load with a text keeps nothing of the rows before it: whatever they were,
/// rows of an earlier load and their ticks included, the rows after it are
/// those of the text, all of them unticked.
pub proof fn lemma_load_replaces_rows(
    rows: Seq<MaterialView>,
    others: Seq<MaterialView>,
    text: String,
)
    ensures
        rows_after(rows, Message::LoadLitematic(FileOutcome::Contents(text))) == rows_of_text(
            text@,
        ),
        rows_after(rows, Message::LoadLitematic(FileOutcome::Contents(text))) == rows_after(
            others,
            Message::LoadLitematic(FileOutcome::Contents(text)),
        ),
        forall|i: int|
            0 <= i < rows_of_text(text@).len() ==> !(#[trigger] rows_of_text(text@)[i]).checked,
{
    assert forall|i: int| 0 <= i < rows_of_text(text@).len() implies !(#[trigger] rows_of_text(
        text@,
    )[i]).checked by {
        lemma_rows_start_unticked(columns_of(csv_headers(text@)), csv_records(text@), i);
    }
}

/// A material list gives one row or one notice for each of its records.
pub proof fn lemma_every_record_is_answered(text: Seq<char>)
    ensures
        rows_of_text(text).len() + failures_of_text(text) == csv_records(text).len(),
{
    lemma_rows_and_failures(columns_of(csv_headers(text)), csv_records(text));
}

} // verus!
