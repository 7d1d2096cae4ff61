//! A to-do list kept in memory: items with sequential ids, each open or done.
use vstd::prelude::*;

verus! {

/// One to-do item.
#[derive(Clone, Debug, PartialEq, Eq)]
pub struct TodoItem {
    pub id: u32,
    pub title: String,
    pub completed: bool,
}

impl TodoItem {
    /// An open item.
    pub fn new(id: u32, title: String) -> (r: TodoItem)
        ensures
            r == (TodoItem { id, title, completed: false }),
    {
        TodoItem { id, title, completed: false }
    }

    /// Marks the item done.
    pub fn complete(&mut self)
        ensures
            *final(self) == (TodoItem { completed: true, ..*old(self) }),
    {
        self.completed = true;
    }

    /// The item's status mark: `[x]` when done, `[ ]` when open.
    pub fn status_mark(&self) -> (r: &'static str)
        ensures
            r@ == (if self.completed {
                "[x]"@
            } else {
                "[ ]"@
            }),
    {
        if self.completed {
            "[x]"
        } else {
            "[ ]"
        }
    }
}

/// A list of to-do items, in the order they were added.
pub struct TodoList {
    items: Vec<TodoItem>,
}

impl View for TodoList {
    type V = Seq<TodoItem>;

    closed spec fn view(&self) -> Seq<TodoItem> {
        self.items@
    }
}

impl TodoList {
    /// An empty list.
    pub fn new() -> (r: TodoList)
        ensures
            r@ == Seq::<TodoItem>::empty(),
    {
        TodoList { items: Vec::new() }
    }

    /// Appends an open item whose id is the list's new length.
    pub fn add_item(&mut self, title: String)
        requires
            old(self)@.len() < u32::MAX,
        ensures
            final(self)@ == old(self)@.push(
                TodoItem { id: (old(self)@.len() + 1) as u32, title, completed: false },
            ),
    {
        let id = (self.items.len() as u32) + 1;
        let item = TodoItem::new(id, title);
        self.items.push(item);
    }

    /// The items, in the order they were added.
    pub fn items(&self) -> (r: &Vec<TodoItem>)
        ensures
            r@ == self@,
    {
        &self.items
    }

    /// Marks the first item with this id done and returns its title, or
    /// returns `None` and changes nothing where no item has the id.
    pub fn complete_item(&mut self, id: u32) -> (r: Option<String>)
        ensures
            match r {
                Some(title) => exists|k: int|
                    0 <= k < old(self)@.len() && (#[trigger] old(self)@[k]).id == id && (forall|
                        j: int,
                    | 0 <= j < k ==> (#[trigger] old(self)@[j]).id != id) && title == old(
                        self,
                    )@[k].title && final(self)@ == old(self)@.update(
                        k,
                        TodoItem { completed: true, ..old(self)@[k] },
                    ),
                None => (forall|k: int| 0 <= k < old(self)@.len() ==> (#[trigger] old(self)@[k]).id
                    != id) && final(self)@ == old(self)@,
            },
    {
        let mut i: usize = 0;
        while i < self.items.len()
            invariant
                i <= self.items@.len(),
                self.items@ == old(self)@,
                forall|j: int| 0 <= j < i ==> (#[trigger] self.items@[j]).id != id,
            decreases self.items.len() - i,
        {
            if self.items[i].id == id {
                let mut item = self.items.remove(i);
                item.complete();
                let title = item.title.clone();
                self.items.insert(i, item);
                assert(self.items@ =~= old(self)@.update(
                    i as int,
                    TodoItem { completed: true, ..old(self)@[i as int] },
                ));
                return Some(title);
            }
            i = i + 1;
        }
        None
    }
}

} // verus!
