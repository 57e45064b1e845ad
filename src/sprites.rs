//! The registry of loaded sprite sheets, looked up by file name.

use vstd::prelude::*;

verus! {

/// A loaded sprite sheet: its file name and its size in pixels.
#[derive(Debug, Clone)]
pub struct Sheet {
    pub name: String,
    pub width: u32,
    pub height: u32,
}

/// Sprite sheets in the order they were first added. The index of a sheet
/// never changes, so an index can stand for the texture it names.
#[derive(Debug, Clone)]
pub struct Sprites {
    sheets: Vec<Sheet>,
}

/// The first index whose sheet carries `name`, if any.
pub open spec fn first_named(s: Seq<(Seq<char>, u32, u32)>, name: Seq<char>) -> Option<int> {
    if exists|i: int| 0 <= i < s.len() && s[i].0 == name {
        let i = choose|i: int|
            0 <= i < s.len() && s[i].0 == name && forall|j: int| 0 <= j < i ==> s[j].0 != name;
        Some(i)
    } else {
        None
    }
}

/// Any sequence that holds `name` has a first index holding it.
pub proof fn lemma_first_named(s: Seq<(Seq<char>, u32, u32)>, name: Seq<char>, k: int)
    requires
        0 <= k < s.len(),
        s[k].0 == name,
        forall|j: int| 0 <= j < k ==> s[j].0 != name,
    ensures
        first_named(s, name) == Some(k),
{
    assert(0 <= k < s.len() && s[k].0 == name && forall|j: int| 0 <= j < k ==> s[j].0 != name);
}

impl View for Sprites {
    type V = Seq<(Seq<char>, u32, u32)>;

    closed spec fn view(&self) -> Seq<(Seq<char>, u32, u32)> {
        self.sheets@.map_values(|s: Sheet| (s.name@, s.width, s.height))
    }
}

impl Sprites {
    /// Whether a sheet of that name is registered.
    pub open spec fn has(&self, name: Seq<char>) -> bool {
        first_named(self@, name) is Some
    }

    /// An empty registry.
    pub fn new() -> (r: Sprites)
        ensures
            r@ == Seq::<(Seq<char>, u32, u32)>::empty(),
    {
        let r = Sprites { sheets: Vec::new() };
        assert(r@ =~= Seq::<(Seq<char>, u32, u32)>::empty());
        r
    }

    /// Number of registered sheets.
    pub fn len(&self) -> (r: usize)
        ensures
            r == self@.len(),
    {
        self.sheets.len()
    }

    /// The index of the sheet called `name`.
    pub fn get(&self, name: &str) -> (r: Option<usize>)
        ensures
            r matches Some(i) ==> i < self@.len() && first_named(self@, name@) == Some(i as int),
            r is None ==> first_named(self@, name@) is None,
    {
        let wanted = name.to_owned();
        let mut i: usize = 0;
        while i < self.sheets.len()
            invariant
                i <= self.sheets.len(),
                self@.len() == self.sheets@.len(),
                wanted@ == name@,
                forall|j: int| 0 <= j < i ==> self@[j].0 != name@,
            decreases self.sheets.len() - i,
        {
            if self.sheets[i].name == wanted {
                proof {
                    lemma_first_named(self@, name@, i as int);
                }
                return Some(i);
            }
            i = i + 1;
        }
        None
    }

    /// Width and height in pixels of the sheet at `index`.
    pub fn size(&self, index: usize) -> (r: (u32, u32))
        requires
            index < self@.len(),
        ensures
            r.0 == self@[index as int].1,
            r.1 == self@[index as int].2,
    {
        (self.sheets[index].width, self.sheets[index].height)
    }

    /// Registers a sheet. A sheet of the same name is replaced in place;
    /// otherwise the new one is appended. Returns its index.
    pub fn add(&mut self, name: String, width: u32, height: u32) -> (r: usize)
        requires
            old(self)@.len() < usize::MAX,
        ensures
            first_named(old(self)@, name@) matches Some(i) ==> r == i && final(self)@ == old(
                self,
            )@.update(i, (name@, width, height)),
            first_named(old(self)@, name@) is None ==> r == old(self)@.len() && final(self)@
                == old(self)@.push((name@, width, height)),
    {
        let found = self.get(name.as_str());
        let ghost name_v = name@;
        match found {
            Some(i) => {
                self.sheets.set(i, Sheet { name, width, height });
                assert(self@ =~= old(self)@.update(i as int, (name_v, width, height)));
                i
            },
            None => {
                let n = self.sheets.len();
                self.sheets.push(Sheet { name, width, height });
                assert(self@ =~= old(self)@.push((name_v, width, height)));
                n
            },
        }
    }
}

} // verus!
