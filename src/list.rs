use vstd::prelude::*;

use crate::todo::{todos_view, ToDo, ToDoView};

verus! {

/// One displayed row: a record's title and its completion status.
#[derive(Clone, PartialEq, Eq, Debug)]
pub struct ListEntry {
    pub title: String,
    pub completed: bool,
}

pub ghost struct EntryView {
    pub title: Seq<char>,
    pub completed: bool,
}

impl View for ListEntry {
    type V = EntryView;

    open spec fn view(&self) -> EntryView {
        EntryView { title: self.title@, completed: self.completed }
    }
}

/// What a record is displayed as.
pub open spec fn entry_of(t: ToDoView) -> EntryView {
    EntryView { title: t.title, completed: t.completed }
}

/// The rows shown for an optional sequence of records: none when absent,
/// one per record, in order, otherwise.
pub open spec fn rows_of(items: Option<Seq<ToDoView>>) -> Seq<EntryView> {
    match items {
        Option::None => Seq::empty(),
        Option::Some(s) => s.map_values(|t: ToDoView| entry_of(t)),
    }
}

/// A read-only list container; it holds no state beyond what it shows.
#[derive(Clone, PartialEq, Eq, Debug)]
pub struct ListView {
    pub entries: Vec<ListEntry>,
}

impl View for ListView {
    type V = Seq<EntryView>;

    open spec fn view(&self) -> Seq<EntryView> {
        self.entries@.map_values(|e: ListEntry| e@)
    }
}

impl ListView {
    /// Renders `todos`; an absent or empty list gives an empty container.
    pub fn render(todos: Option<&Vec<ToDo>>) -> (r: ListView)
        ensures
            r@ == rows_of(
                match todos {
                    Option::None => Option::<Seq<ToDoView>>::None,
                    Option::Some(v) => Option::Some(todos_view(v@)),
                },
            ),
    {
        let mut entries: Vec<ListEntry> = Vec::new();
        match todos {
            Option::None => {
                assert(entries@.map_values(|e: ListEntry| e@) =~= Seq::<EntryView>::empty());
            },
            Option::Some(v) => {
                let mut i: usize = 0;
                while i < v.len()
                    invariant
                        i <= v.len(),
                        entries@.len() == i,
                        forall|j: int| 0 <= j < i ==> #[trigger] entries@[j]@ == entry_of(v@[j]@),
                    decreases v.len() - i,
                {
                    let t = &v[i];
                    entries.push(ListEntry { title: t.title.clone(), completed: t.completed });
                    i = i + 1;
                }
                assert(entries@.map_values(|e: ListEntry| e@) =~= todos_view(v@).map_values(
                    |t: ToDoView| entry_of(t),
                ));
            },
        }
        ListView { entries }
    }

    pub fn is_empty(&self) -> (r: bool)
        ensures
            r == (self@.len() == 0),
    {
        self.entries.len() == 0
    }

    pub fn len(&self) -> (r: usize)
        ensures
            r == self@.len(),
    {
        self.entries.len()
    }
}

} // verus!
