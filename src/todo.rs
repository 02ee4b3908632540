use vstd::prelude::*;

verus! {

/// One remote to-do record. Immutable once received.
#[derive(Clone, PartialEq, Eq, Debug)]
pub struct ToDo {
    pub user_id: u64,
    pub id: u64,
    pub title: String,
    pub completed: bool,
}

/// The mathematical value of a [`ToDo`].
pub ghost struct ToDoView {
    pub user_id: u64,
    pub id: u64,
    pub title: Seq<char>,
    pub completed: bool,
}

impl View for ToDo {
    type V = ToDoView;

    open spec fn view(&self) -> ToDoView {
        ToDoView { user_id: self.user_id, id: self.id, title: self.title@, completed: self.completed }
    }
}

/// The values of a sequence of records.
pub open spec fn todos_view(v: Seq<ToDo>) -> Seq<ToDoView> {
    v.map_values(|t: ToDo| t@)
}

impl ToDo {
    pub fn new(user_id: u64, id: u64, title: String, completed: bool) -> (r: ToDo)
        ensures
            r@ == (ToDoView { user_id, id, title: title@, completed }),
    {
        ToDo { user_id, id, title, completed }
    }

    /// A field-by-field copy.
    pub fn duplicate(&self) -> (r: ToDo)
        ensures
            r@ == self@,
    {
        ToDo {
            user_id: self.user_id,
            id: self.id,
            title: self.title.clone(),
            completed: self.completed,
        }
    }
}

/// Copies every record of `v`, in order.
pub fn duplicate_all(v: &Vec<ToDo>) -> (r: Vec<ToDo>)
    ensures
        todos_view(r@) == todos_view(v@),
{
    let mut r: Vec<ToDo> = Vec::new();
    let mut i: usize = 0;
    while i < v.len()
        invariant
            i <= v.len(),
            r@.len() == i,
            forall|j: int| 0 <= j < i ==> #[trigger] r@[j]@ == v@[j]@,
        decreases v.len() - i,
    {
        let t = v[i].duplicate();
        r.push(t);
        i = i + 1;
    }
    assert(todos_view(r@) =~= todos_view(v@));
    r
}

} // verus!
