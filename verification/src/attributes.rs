use vstd::hash_map::StringHashMap;
use vstd::prelude::*;

verus! {

/// The attributes of a list of name and value pairs, a later pair of a name
/// overriding an earlier one.
pub open spec fn attributes_of(pairs: Seq<(Seq<char>, Seq<char>)>) -> Map<Seq<char>, Seq<char>>
    decreases pairs.len(),
{
    if pairs.len() == 0 {
        Map::empty()
    } else {
        attributes_of(pairs.drop_last()).insert(pairs.last().0, pairs.last().1)
    }
}

/// Contains all attributes that belong to the current entity: at most one
/// value per name. Similar to using `getAttribute` and `setAttribute` on an element.
pub struct AttributeList {
    attributes: StringHashMap<String>,
    /// The names that have a value, each once.
    names: Vec<String>,
}

impl View for AttributeList {
    type V = Map<Seq<char>, Seq<char>>;

    closed spec fn view(&self) -> Map<Seq<char>, Seq<char>> {
        self.attributes@.map_values(|v: String| v@)
    }
}

impl AttributeList {
    /// The names, as text.
    closed spec fn name_list(&self) -> Seq<Seq<char>> {
        self.names@.map_values(|n: String| n@)
    }

    /// Each name with a value is listed once, and only those.
    #[verifier::type_invariant]
    spec fn names_match(&self) -> bool {
        &&& self.name_list().no_duplicates()
        &&& forall|k: Seq<char>| #[trigger]
            self.attributes@.contains_key(k) <==> self.name_list().contains(k)
    }

    /// The attributes have finitely many names, as many as the list of names.
    proof fn lemma_names_count(&self)
        requires
            self.names_match(),
        ensures
            self@.dom() == self.name_list().to_set(),
            self@.dom().finite(),
            self@.dom().len() == self.names@.len(),
    {
        assert(self@.dom() =~= self.name_list().to_set());
        self.name_list().unique_seq_to_set();
    }

    /// Index of `name` in the list of names, if it is there.
    fn name_position(&self, name: &String) -> (res: Option<usize>)
        ensures
            match res {
                Some(i) => i < self.name_list().len() && self.name_list()[i as int] == name@,
                None => !self.name_list().contains(name@),
            },
    {
        let mut i: usize = 0;
        while i < self.names.len()
            invariant
                i <= self.name_list().len(),
                self.name_list().len() == self.names@.len(),
                forall|j: int| 0 <= j < i ==> #[trigger] self.name_list()[j] != name@,
            decreases self.names@.len() - i,
        {
            if self.names[i] == *name {
                return Some(i);
            }
            i = i + 1;
        }
        proof {
            if self.name_list().contains(name@) {
                let j = choose|j: int|
                    0 <= j < self.name_list().len() && self.name_list()[j] == name@;
                assert(self.name_list()[j] != name@);
            }
        }
        None
    }

    /// Creates a new empty AttributeList.
    pub fn new() -> (res: Self)
        ensures
            res@ == Map::<Seq<char>, Seq<char>>::empty(),
    {
        let res = AttributeList { attributes: StringHashMap::new(), names: Vec::new() };
        assert(res.name_list() =~= Seq::<Seq<char>>::empty());
        assert(res@ =~= Map::<Seq<char>, Seq<char>>::empty());
        res
    }

    /// Creates an AttributeList holding the given pairs, a later pair of a name
    /// overriding an earlier one.
    pub fn from_pairs(pairs: &[(&str, &str)]) -> (res: Self)
        ensures
            res@ == attributes_of(pairs@.map_values(|p: (&str, &str)| (p.0@, p.1@))),
    {
        let mut res = AttributeList::new();
        let ghost all = pairs@.map_values(|p: (&str, &str)| (p.0@, p.1@));
        let mut i: usize = 0;
        while i < pairs.len()
            invariant
                i <= pairs@.len(),
                all == pairs@.map_values(|p: (&str, &str)| (p.0@, p.1@)),
                res@ == attributes_of(all.take(i as int)),
            decreases pairs@.len() - i,
        {
            let (name, value) = pairs[i];
            res.set_attribute(name, value);
            proof {
                assert(all.take(i + 1).drop_last() =~= all.take(i as int));
            }
            i = i + 1;
        }
        proof {
            assert(all.take(pairs@.len() as int) =~= all);
        }
        res
    }

    /// Returns the value of a specified attribute on the element.
    pub fn get_attribute(&self, name: &str) -> (res: Option<&str>)
        ensures
            match res {
                Some(value) => self@.contains_key(name@) && value@ == self@[name@],
                None => !self@.contains_key(name@),
            },
    {
        match self.attributes.get(name) {
            Some(value) => Some(value.as_str()),
            None => None,
        }
    }

    /// Sets the value of an attribute on the current entity. If the attribute
    /// already exists, the value is updated; otherwise a new attribute is added
    /// with the specified name and value.
    pub fn set_attribute(&mut self, name: &str, value: &str)
        ensures
            final(self)@ == old(self)@.insert(name@, value@),
    {
        proof {
            use_type_invariant(&*self);
        }
        let mut taken = AttributeList::new();
        std::mem::swap(self, &mut taken);
        let ghost before = taken;
        let AttributeList { mut attributes, mut names } = taken;
        let present = attributes.contains_key(name);
        attributes.insert(name.to_owned(), value.to_owned());
        if !present {
            names.push(name.to_owned());
        }
        proof {
            let listed = names@.map_values(|n: String| n@);
            if present {
                assert(listed =~= before.name_list());
            } else {
                assert(listed =~= before.name_list().push(name@));
                assert(listed[listed.len() - 1] == name@);
                assert forall|a: int, b: int| 0 <= a < b < listed.len() implies listed[a]
                    != listed[b] by {
                    if b == listed.len() - 1 {
                        assert(before.name_list()[a] == listed[a]);
                    } else {
                        assert(before.name_list()[a] == listed[a]);
                        assert(before.name_list()[b] == listed[b]);
                    }
                }
                assert forall|k: Seq<char>| listed.contains(k) implies (
                before.name_list().contains(k) || k == name@) by {
                    let j = choose|j: int| 0 <= j < listed.len() && listed[j] == k;
                    if j < before.name_list().len() {
                        assert(before.name_list()[j] == k);
                    }
                }
                assert forall|k: Seq<char>| before.name_list().contains(k) implies listed.contains(
                    k,
                ) by {
                    let j = choose|j: int|
                        0 <= j < before.name_list().len() && before.name_list()[j] == k;
                    assert(listed[j] == k);
                }
            }
        }
        *self = AttributeList { attributes, names };
        proof {
            assert(final(self)@ =~= old(self)@.insert(name@, value@));
        }
    }

    /// Removes the attribute with the specified name.
    pub fn remove_attribute(&mut self, name: &str)
        ensures
            final(self)@ == old(self)@.remove(name@),
    {
        proof {
            use_type_invariant(&*self);
        }
        let key = name.to_owned();
        let position = self.name_position(&key);
        let mut taken = AttributeList::new();
        std::mem::swap(self, &mut taken);
        let ghost before = taken;
        let AttributeList { mut attributes, mut names } = taken;
        attributes.remove(name);
        if let Some(index) = position {
            names.remove(index);
            proof {
                crate::class_list::lemma_remove_keeps_no_duplicates(
                    before.name_list(),
                    index as int,
                );
                assert(names@.map_values(|n: String| n@) =~= before.name_list().remove(
                    index as int,
                ));
            }
        } else {
            proof {
                assert(names@.map_values(|n: String| n@) =~= before.name_list());
            }
        }
        *self = AttributeList { attributes, names };
        proof {
            assert(final(self)@ =~= old(self)@.remove(name@));
        }
    }

    /// Whether both lists hold the same attributes with the same values.
    pub fn same_attributes(&self, other: &AttributeList) -> (res: bool)
        ensures
            res == (self@ == other@),
    {
        proof {
            use_type_invariant(self);
            use_type_invariant(other);
            self.lemma_names_count();
            other.lemma_names_count();
        }
        proof {
            assert(self@.dom() =~= self.attributes@.dom());
            assert(other@.dom() =~= other.attributes@.dom());
        }
        if self.attributes.len() != other.attributes.len() {
            return false;
        }
        let mut i: usize = 0;
        while i < self.names.len()
            invariant
                i <= self.name_list().len(),
                self.name_list().len() == self.names@.len(),
                self.names_match(),
                forall|j: int|
                    0 <= j < i ==> #[trigger] other@.contains_key(self.name_list()[j])
                        && other@[self.name_list()[j]] == self@[self.name_list()[j]],
            decreases self.names@.len() - i,
        {
            let name = self.names[i].as_str();
            let mine = self.attributes.get(name);
            let theirs = other.attributes.get(name);
            proof {
                assert(self.name_list()[i as int] == name@);
                assert(self.name_list().contains(name@));
            }
            match (mine, theirs) {
                (Some(a), Some(b)) => {
                    if !(*a == *b) {
                        proof {
                            assert(self@[name@] == a@);
                            assert(other@[name@] == b@);
                        }
                        return false;
                    }
                    proof {
                        assert(self@[name@] == a@);
                        assert(other@[name@] == b@);
                        assert(other@.contains_key(self.name_list()[i as int]));
                        assert(other@[self.name_list()[i as int]] == self@[self.name_list()[
                            i as int]]);
                    }
                },
                _ => {
                    proof {
                        assert(self@.contains_key(name@));
                        assert(!other@.contains_key(name@));
                    }
                    return false;
                },
            }
            assert(other@.contains_key(self.name_list()[i as int]));
            assert(forall|j: int|
                0 <= j < i + 1 ==> #[trigger] other@.contains_key(self.name_list()[j])
                    && other@[self.name_list()[j]] == self@[self.name_list()[j]]);
            i = i + 1;
        }
        proof {
            assert(self@.dom().subset_of(other@.dom())) by {
                assert forall|k: Seq<char>| self@.dom().contains(k) implies other@.dom().contains(
                    k,
                ) by {
                    let j = choose|j: int|
                        0 <= j < self.name_list().len() && self.name_list()[j] == k;
                    assert(other@.contains_key(self.name_list()[j]));
                }
            }
            assert(self@.dom().len() == other@.dom().len());
            vstd::set_lib::lemma_subset_equality(self@.dom(), other@.dom());
            assert forall|k: Seq<char>| self@.dom().contains(k) implies other@[k] == self@[k] by {
                let j = choose|j: int|
                    0 <= j < self.name_list().len() && self.name_list()[j] == k;
                assert(other@.contains_key(self.name_list()[j]));
            }
            assert(self@ =~= other@);
        }
        true
    }
}

impl Clone for AttributeList {
    /// A list with the same attributes and values.
    fn clone(&self) -> (res: Self)
        ensures
            res@ == self@,
    {
        proof {
            use_type_invariant(self);
        }
        let mut res = AttributeList::new();
        let mut i: usize = 0;
        while i < self.names.len()
            invariant
                i <= self.name_list().len(),
                self.name_list().len() == self.names@.len(),
                self.names_match(),
                forall|k: Seq<char>| #[trigger]
                    res@.contains_key(k) <==> self.name_list().take(i as int).contains(k),
                forall|k: Seq<char>| #[trigger] res@.contains_key(k) ==> res@[k] == self@[k],
            decreases self.names@.len() - i,
        {
            let name = self.names[i].as_str();
            proof {
                assert(self.name_list()[i as int] == name@);
                assert(self.name_list().contains(name@));
            }
            match self.attributes.get(name) {
                Some(value) => {
                    res.set_attribute(name, value.as_str());
                },
                None => {},
            }
            proof {
                let earlier = self.name_list().take(i as int);
                let now = self.name_list().take(i + 1);
                assert(now =~= earlier.push(name@));
                assert forall|k: Seq<char>| now.contains(k) <==> (earlier.contains(k) || k
                    == name@) by {
                    if now.contains(k) {
                        let j = choose|j: int| 0 <= j < now.len() && now[j] == k;
                        if j < earlier.len() {
                            assert(earlier[j] == k);
                        }
                    }
                    if earlier.contains(k) {
                        let j = choose|j: int| 0 <= j < earlier.len() && earlier[j] == k;
                        assert(now[j] == k);
                    }
                    if k == name@ {
                        assert(now[i as int] == k);
                    }
                }
            }
            i = i + 1;
        }
        proof {
            assert(self.name_list().take(self.names@.len() as int) =~= self.name_list());
            assert(res@.dom() =~= self@.dom());
            assert(res@ =~= self@);
        }
        res
    }
}

impl PartialEq for AttributeList {
    fn eq(&self, other: &AttributeList) -> (res: bool) {
        self.same_attributes(other)
    }
}

impl vstd::std_specs::cmp::PartialEqSpecImpl for AttributeList {
    open spec fn obeys_eq_spec() -> bool {
        true
    }

    open spec fn eq_spec(&self, other: &AttributeList) -> bool {
        self@ == other@
    }
}

impl Default for AttributeList {
    /// An empty list.
    fn default() -> (res: Self)
        ensures
            res@ == Map::<Seq<char>, Seq<char>>::empty(),
    {
        AttributeList::new()
    }
}

/// Reading an attribute gives back the last value written for it; writing or
/// removing another attribute does not change it.
pub proof fn lemma_attribute_read_after_write(
    attributes: Map<Seq<char>, Seq<char>>,
    name: Seq<char>,
    value: Seq<char>,
    other: Seq<char>,
)
    requires
        other != name,
    ensures
        attributes.insert(name, value).contains_key(name),
        attributes.insert(name, value)[name] == value,
        attributes.insert(other, value).contains_key(name) == attributes.contains_key(name),
        attributes.contains_key(name) ==> attributes.insert(other, value)[name]
            == attributes[name],
        attributes.remove(other).contains_key(name) == attributes.contains_key(name),
        attributes.contains_key(name) ==> attributes.remove(other)[name] == attributes[name],
{
}

/// Building attributes from pairs: a name reads as the value of its last pair.
pub proof fn lemma_last_pair_wins(pairs: Seq<(Seq<char>, Seq<char>)>, k: int)
    requires
        0 <= k < pairs.len(),
        forall|j: int| k < j < pairs.len() ==> (#[trigger] pairs[j]).0 != pairs[k].0,
    ensures
        attributes_of(pairs).contains_key(pairs[k].0),
        attributes_of(pairs)[pairs[k].0] == pairs[k].1,
    decreases pairs.len(),
{
    let init = pairs.drop_last();
    if k < pairs.len() - 1 {
        assert forall|j: int| k < j < init.len() implies (#[trigger] init[j]).0 != init[k].0 by {
            assert(init[j] == pairs[j]);
        }
        lemma_last_pair_wins(init, k);
    }
    assert(pairs.last() == pairs[pairs.len() - 1]);
}

/// Building attributes from pairs: a name that no pair has is absent.
pub proof fn lemma_absent_name(pairs: Seq<(Seq<char>, Seq<char>)>, absent: Seq<char>)
    requires
        forall|j: int| 0 <= j < pairs.len() ==> (#[trigger] pairs[j]).0 != absent,
    ensures
        !attributes_of(pairs).contains_key(absent),
    decreases pairs.len(),
{
    if pairs.len() > 0 {
        let init = pairs.drop_last();
        assert forall|j: int| 0 <= j < init.len() implies (#[trigger] init[j]).0 != absent by {
            assert(init[j] == pairs[j]);
        }
        lemma_absent_name(init, absent);
        assert(pairs.last() == pairs[pairs.len() - 1]);
    }
}

/// A removed attribute reads as absent.
pub proof fn lemma_attribute_absent_after_remove(
    attributes: Map<Seq<char>, Seq<char>>,
    name: Seq<char>,
)
    ensures
        !attributes.remove(name).contains_key(name),
{
}

} // verus!
