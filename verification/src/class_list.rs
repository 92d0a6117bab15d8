use itertools::Itertools;
use vstd::prelude::*;

verus! {

/// Whether `c` has the Unicode `White_Space` property, the property that
/// `char::is_whitespace` and `str::split_whitespace` go by: the controls
/// U+0009 to U+000D, the space U+0020, U+0085, the no-break space U+00A0, the
/// Ogham space mark U+1680, the spaces U+2000 to U+200A, the line and paragraph
/// separators U+2028 and U+2029, U+202F, U+205F and the ideographic space U+3000.
pub open spec fn char_is_whitespace(c: char) -> bool {
    let code = c as u32;
    ||| 0x9 <= code <= 0xD
    ||| code == 0x20
    ||| code == 0x85
    ||| code == 0xA0
    ||| code == 0x1680
    ||| 0x2000 <= code <= 0x200A
    ||| code == 0x2028
    ||| code == 0x2029
    ||| code == 0x202F
    ||| code == 0x205F
    ||| code == 0x3000
}

/// Whether `c` is whitespace, as `char::is_whitespace` answers.
fn is_whitespace(c: char) -> (res: bool)
    ensures
        res == char_is_whitespace(c),
{
    let code = c as u32;
    (0x9 <= code && code <= 0xD) || code == 0x20 || code == 0x85 || code == 0xA0 || code == 0x1680
        || (0x2000 <= code && code <= 0x200A) || code == 0x2028 || code == 0x2029 || code
        == 0x202F || code == 0x205F || code == 0x3000
}

/// `String::push`: appends `c` to `s`, so that the characters of `s` afterwards
/// are those before, followed by `c`.
#[verifier::external_body]
fn push_char(s: &mut String, c: char)
    ensures
        final(s)@ == old(s)@.push(c),
{
    s.push(c);
}

/// `Itertools::join` over the classes: the classes, in order, with `sep` between
/// each two, and the empty string for no class.
#[verifier::external_body]
fn join_classes(classes: &Vec<String>, sep: &str) -> (res: String)
    ensures
        res@ == join_words(classes@.map_values(|c: String| c@), sep@),
{
    classes.iter().join(sep)
}

/// The words of `list` in order, with `sep` between each two.
pub open spec fn join_words(list: Seq<Seq<char>>, sep: Seq<char>) -> Seq<char>
    decreases list.len(),
{
    if list.len() == 0 {
        Seq::empty()
    } else if list.len() == 1 {
        list[0]
    } else {
        join_words(list.drop_last(), sep) + sep + list.last()
    }
}

/// Reading `s` left to right: the words already finished, and the word being read.
pub open spec fn scan_words(s: Seq<char>) -> (Seq<Seq<char>>, Seq<char>)
    decreases s.len(),
{
    if s.len() == 0 {
        (Seq::empty(), Seq::empty())
    } else {
        let (done, current) = scan_words(s.drop_last());
        let c = s.last();
        if char_is_whitespace(c) {
            if current.len() > 0 {
                (done.push(current), Seq::empty())
            } else {
                (done, current)
            }
        } else {
            (done, current.push(c))
        }
    }
}

/// The maximal runs of non-whitespace characters of `s`, in order: what
/// `str::split_whitespace` yields.
pub open spec fn split_whitespace(s: Seq<char>) -> Seq<Seq<char>> {
    let (done, current) = scan_words(s);
    if current.len() > 0 {
        done.push(current)
    } else {
        done
    }
}

/// `list` with `class` appended, unless it is already there.
pub open spec fn add_class(list: Seq<Seq<char>>, class: Seq<char>) -> Seq<Seq<char>> {
    if list.contains(class) {
        list
    } else {
        list.push(class)
    }
}

/// `list` after adding each of `classes` in turn.
pub open spec fn add_classes(list: Seq<Seq<char>>, classes: Seq<Seq<char>>) -> Seq<Seq<char>>
    decreases classes.len(),
{
    if classes.len() == 0 {
        list
    } else {
        add_class(add_classes(list, classes.drop_last()), classes.last())
    }
}

/// `list` without `class`.
pub open spec fn remove_class(list: Seq<Seq<char>>, class: Seq<char>) -> Seq<Seq<char>> {
    if list.contains(class) {
        list.remove(list.index_of(class))
    } else {
        list
    }
}

/// `list` without `class` if it is there, with `class` appended otherwise.
pub open spec fn toggle_class(list: Seq<Seq<char>>, class: Seq<char>) -> Seq<Seq<char>> {
    if list.contains(class) {
        list.remove(list.index_of(class))
    } else {
        list.push(class)
    }
}

pub(crate) proof fn lemma_remove_keeps_no_duplicates(list: Seq<Seq<char>>, i: int)
    requires
        list.no_duplicates(),
        0 <= i < list.len(),
    ensures
        list.remove(i).no_duplicates(),
        !list.remove(i).contains(list[i]),
        forall|c: Seq<char>| c != list[i] ==> (list.remove(i).contains(c) <==> list.contains(c)),
{
    let r = list.remove(i);
    assert forall|a: int, b: int| 0 <= a < r.len() && 0 <= b < r.len() && a != b implies r[a]
        != r[b] by {
        let a2 = if a < i {
            a
        } else {
            a + 1
        };
        let b2 = if b < i {
            b
        } else {
            b + 1
        };
        assert(r[a] == list[a2]);
        assert(r[b] == list[b2]);
    }
    if r.contains(list[i]) {
        let a = choose|a: int| 0 <= a < r.len() && r[a] == list[i];
        let a2 = if a < i {
            a
        } else {
            a + 1
        };
        assert(list[a2] == list[i]);
    }
    assert forall|c: Seq<char>| c != list[i] implies (r.contains(c) <==> list.contains(c)) by {
        if r.contains(c) {
            let a = choose|a: int| 0 <= a < r.len() && r[a] == c;
            let a2 = if a < i {
                a
            } else {
                a + 1
            };
            assert(list[a2] == c);
        }
        if list.contains(c) {
            let a = choose|a: int| 0 <= a < list.len() && list[a] == c;
            if a < i {
                assert(r[a] == c);
            } else {
                assert(a != i);
                assert(r[a - 1] == c);
            }
        }
    }
}

proof fn lemma_add_keeps_no_duplicates(list: Seq<Seq<char>>, class: Seq<char>)
    requires
        list.no_duplicates(),
    ensures
        add_class(list, class).no_duplicates(),
        add_class(list, class).contains(class),
        forall|c: Seq<char>| (add_class(list, class).contains(c) <==> (list.contains(c) || c
            == class)),
{
    let r = add_class(list, class);
    if !list.contains(class) {
        assert(r[list.len() as int] == class);
        assert forall|c: Seq<char>| (r.contains(c) <==> (list.contains(c) || c == class)) by {
            if r.contains(c) {
                let a = choose|a: int| 0 <= a < r.len() && r[a] == c;
                if a < list.len() {
                    assert(list[a] == c);
                }
            }
            if list.contains(c) {
                let a = choose|a: int| 0 <= a < list.len() && list[a] == c;
                assert(r[a] == c);
            }
        }
    }
}

proof fn lemma_add_classes_no_duplicates(list: Seq<Seq<char>>, classes: Seq<Seq<char>>)
    requires
        list.no_duplicates(),
    ensures
        add_classes(list, classes).no_duplicates(),
    decreases classes.len(),
{
    if classes.len() > 0 {
        lemma_add_classes_no_duplicates(list, classes.drop_last());
        lemma_add_keeps_no_duplicates(add_classes(list, classes.drop_last()), classes.last());
    }
}

/// Contains all classes that belong to the current entity, each at most once, in
/// the order they were added. Similar to the `classList` property in HTML.
#[derive(Debug)]
pub struct ClassList {
    classes: Vec<String>,
}

impl View for ClassList {
    type V = Seq<Seq<char>>;

    closed spec fn view(&self) -> Seq<Seq<char>> {
        self.classes@.map_values(|c: String| c@)
    }
}

impl ClassList {
    /// No class occurs twice.
    #[verifier::type_invariant]
    spec fn no_class_twice(&self) -> bool {
        self@.no_duplicates()
    }

    /// Index of `class` in the list, if present.
    fn position(&self, class: &String) -> (res: Option<usize>)
        ensures
            match res {
                Some(i) => i < self@.len() && self@[i as int] == class@,
                None => !self@.contains(class@),
            },
    {
        let mut i: usize = 0;
        while i < self.classes.len()
            invariant
                i <= self@.len(),
                self@.len() == self.classes@.len(),
                forall|j: int| 0 <= j < i ==> #[trigger] self@[j] != class@,
            decreases self.classes@.len() - i,
        {
            if self.classes[i] == *class {
                return Some(i);
            }
            i = i + 1;
        }
        proof {
            if self@.contains(class@) {
                let j = choose|j: int| 0 <= j < self@.len() && self@[j] == class@;
                assert(self@[j] != class@);
            }
        }
        None
    }

    /// Creates a new empty ClassList.
    pub fn empty() -> (res: Self)
        ensures
            res@ == Seq::<Seq<char>>::empty(),
    {
        let res = ClassList { classes: Vec::new() };
        assert(res@ =~= Seq::<Seq<char>>::empty());
        res
    }

    /// Creates a new [`ClassList`] from a whitespace separated list of classes,
    /// each kept once, in the order of their first occurrence.
    pub fn new(s: &str) -> (res: Self)
        ensures
            res@ == add_classes(Seq::empty(), split_whitespace(s@)),
            res@.no_duplicates(),
    {
        let mut res = ClassList::empty();
        let mut current = String::new();
        let ghost mut done: Seq<Seq<char>> = Seq::empty();
        let n = s.unicode_len();
        let mut i: usize = 0;
        while i < n
            invariant
                i <= n,
                n == s@.len(),
                scan_words(s@.take(i as int)) == (done, current@),
                res@ == add_classes(Seq::empty(), done),
            decreases n - i,
        {
            let c = s.get_char(i);
            proof {
                assert(s@.take(i + 1).drop_last() =~= s@.take(i as int));
                assert(s@.take(i + 1).last() == c);
            }
            if is_whitespace(c) {
                if current.as_str().unicode_len() > 0 {
                    res.add_string(current);
                    proof {
                        assert(done.push(current@).drop_last() =~= done);
                        done = done.push(current@);
                    }
                    current = String::new();
                }
            } else {
                push_char(&mut current, c);
            }
            i = i + 1;
        }
        if current.as_str().unicode_len() > 0 {
            res.add_string(current);
            proof {
                assert(done.push(current@).drop_last() =~= done);
                done = done.push(current@);
            }
        }
        proof {
            assert(s@.take(n as int) =~= s@);
            use_type_invariant(&res);
        }
        res
    }

    /// Creates a new ClassList with the given classes, each kept once, in the
    /// order of their first occurrence.
    pub fn new_with_classes(classes: &[&str]) -> (res: Self)
        ensures
            res@ == add_classes(Seq::empty(), classes@.map_values(|c: &str| c@)),
            res@.no_duplicates(),
    {
        let mut res = ClassList::empty();
        let mut i: usize = 0;
        while i < classes.len()
            invariant
                i <= classes@.len(),
                res@ == add_classes(Seq::empty(), classes@.map_values(|c: &str| c@).take(i as int)),
            decreases classes@.len() - i,
        {
            res.add(classes[i]);
            proof {
                let all = classes@.map_values(|c: &str| c@);
                assert(all.take(i + 1).drop_last() =~= all.take(i as int));
            }
            i = i + 1;
        }
        proof {
            let all = classes@.map_values(|c: &str| c@);
            assert(all.take(classes@.len() as int) =~= all);
            use_type_invariant(&res);
        }
        res
    }

    /// Returns true if the provided class is applied.
    pub fn contains(&self, class: &str) -> (res: bool)
        ensures
            res == self@.contains(class@),
    {
        let class = class.to_owned();
        self.position(&class).is_some()
    }

    /// Toggles the provided class: if it's applied, it gets removed, if it's not
    /// there, it gets added.
    pub fn toggle(&mut self, class: &str)
        ensures
            final(self)@ == toggle_class(old(self)@, class@),
            final(self)@.no_duplicates(),
    {
        proof {
            use_type_invariant(&*self);
        }
        let class = class.to_owned();
        match self.position(&class) {
            Some(index) => {
                let mut classes = Vec::new();
                std::mem::swap(&mut classes, &mut self.classes);
                classes.remove(index);
                proof {
                    assert(classes@.map_values(|c: String| c@) =~= old(self)@.remove(index as int));
                    lemma_remove_keeps_no_duplicates(old(self)@, index as int);
                }
                self.classes = classes;
                proof {
                    assert(self@ =~= old(self)@.remove(index as int));
                    lemma_remove_keeps_no_duplicates(old(self)@, index as int);
                    assert(old(self)@.index_of(class@) == index) by {
                        let k = old(self)@.index_of(class@);
                        assert(old(self)@[k] == old(self)@[index as int]);
                    }
                }
            },
            None => {
                let mut classes = Vec::new();
                std::mem::swap(&mut classes, &mut self.classes);
                classes.push(class);
                proof {
                    assert(classes@.map_values(|c: String| c@) =~= old(self)@.push(class@));
                    lemma_add_keeps_no_duplicates(old(self)@, class@);
                }
                self.classes = classes;
            },
        }
    }

    /// Adds `class` unless it is already there.
    fn add_string(&mut self, class: String)
        ensures
            final(self)@ == add_class(old(self)@, class@),
            final(self)@.no_duplicates(),
    {
        proof {
            use_type_invariant(&*self);
            lemma_add_keeps_no_duplicates(self@, class@);
        }
        if self.position(&class).is_none() {
            let mut classes = Vec::new();
            std::mem::swap(&mut classes, &mut self.classes);
            classes.push(class);
            proof {
                assert(classes@.map_values(|c: String| c@) =~= old(self)@.push(class@));
            }
            self.classes = classes;
        }
    }

    /// Adds the given class to the list of classes, unless it is already there.
    pub fn add(&mut self, class: &str)
        ensures
            final(self)@ == add_class(old(self)@, class@),
            final(self)@.no_duplicates(),
    {
        self.add_string(class.to_owned());
    }

    /// Removes the given class from the list of classes.
    pub fn remove(&mut self, class_to_remove: &str)
        ensures
            final(self)@ == remove_class(old(self)@, class_to_remove@),
            final(self)@.no_duplicates(),
    {
        proof {
            use_type_invariant(&*self);
        }
        let class = class_to_remove.to_owned();
        if let Some(index) = self.position(&class) {
            let mut classes = Vec::new();
            std::mem::swap(&mut classes, &mut self.classes);
            classes.remove(index);
            proof {
                assert(classes@.map_values(|c: String| c@) =~= old(self)@.remove(index as int));
                lemma_remove_keeps_no_duplicates(old(self)@, index as int);
            }
            self.classes = classes;
            proof {
                assert(old(self)@.index_of(class@) == index) by {
                    let k = old(self)@.index_of(class@);
                    assert(old(self)@[k] == old(self)@[index as int]);
                }
            }
        }
    }

    /// The classes, in order, separated by single spaces.
    pub fn to_string(&self) -> (res: String)
        ensures
            res@ == join_words(self@, seq![' ']),
    {
        proof {
            reveal_strlit(" ");
            assert(" "@ =~= seq![' ']);
        }
        join_classes(&self.classes, " ")
    }

    /// Whether both lists hold the same classes in the same order.
    pub fn same_classes(&self, other: &ClassList) -> (res: bool)
        ensures
            res == (self@ == other@),
    {
        if self.classes.len() != other.classes.len() {
            proof {
                assert(self@.len() != other@.len());
            }
            return false;
        }
        let mut i: usize = 0;
        while i < self.classes.len()
            invariant
                i <= self@.len(),
                self@.len() == self.classes@.len(),
                other@.len() == other.classes@.len(),
                self@.len() == other@.len(),
                forall|j: int| 0 <= j < i ==> #[trigger] self@[j] == other@[j],
            decreases self.classes@.len() - i,
        {
            if !(self.classes[i] == other.classes[i]) {
                proof {
                    assert(self@[i as int] != other@[i as int]);
                }
                return false;
            }
            i = i + 1;
        }
        proof {
            assert(self@ =~= other@);
        }
        true
    }
}

impl Default for ClassList {
    /// An empty list.
    fn default() -> (res: Self)
        ensures
            res@ == Seq::<Seq<char>>::empty(),
    {
        ClassList::empty()
    }
}

impl Clone for ClassList {
    /// A list with the same classes in the same order.
    fn clone(&self) -> (res: Self)
        ensures
            res@ == self@,
    {
        proof {
            use_type_invariant(self);
        }
        let mut classes: Vec<String> = Vec::new();
        let mut i: usize = 0;
        while i < self.classes.len()
            invariant
                i <= self.classes@.len(),
                classes@.len() == i,
                forall|j: int| 0 <= j < i ==> #[trigger] classes@[j] == self.classes@[j],
            decreases self.classes@.len() - i,
        {
            classes.push(self.classes[i].clone());
            i = i + 1;
        }
        proof {
            assert(classes@ =~= self.classes@);
        }
        ClassList { classes }
    }
}

impl PartialEq for ClassList {
    fn eq(&self, other: &ClassList) -> (res: bool) {
        self.same_classes(other)
    }
}

impl vstd::std_specs::cmp::PartialEqSpecImpl for ClassList {
    open spec fn obeys_eq_spec() -> bool {
        true
    }

    open spec fn eq_spec(&self, other: &ClassList) -> bool {
        self@ == other@
    }
}

impl std::str::FromStr for ClassList {
    type Err = std::convert::Infallible;

    fn from_str(s: &str) -> (res: Result<ClassList, std::convert::Infallible>)
        ensures
            res matches Ok(list) && list@ == add_classes(Seq::empty(), split_whitespace(s@))
                && list@.no_duplicates(),
    {
        Ok(ClassList::new(s))
    }
}

/// Adding a class makes it present, and adding it again changes nothing.
pub proof fn lemma_add_contains_and_is_idempotent(list: Seq<Seq<char>>, class: Seq<char>)
    ensures
        add_class(list, class).contains(class),
        add_class(add_class(list, class), class) == add_class(list, class),
{
    if !list.contains(class) {
        assert(list.push(class)[list.len() as int] == class);
    }
}

/// Removing a class from a list without duplicates makes it absent and leaves
/// every other class as present or absent as it was.
pub proof fn lemma_remove_makes_absent(list: Seq<Seq<char>>, class: Seq<char>)
    requires
        list.no_duplicates(),
    ensures
        !remove_class(list, class).contains(class),
        remove_class(list, class).no_duplicates(),
        forall|c: Seq<char>|
            c != class ==> (remove_class(list, class).contains(c) <==> list.contains(c)),
{
    if list.contains(class) {
        let i = list.index_of(class);
        lemma_remove_keeps_no_duplicates(list, i);
    }
}

/// Toggling a class twice restores which classes are present; toggling a class
/// that was absent twice restores the list itself.
pub proof fn lemma_toggle_twice(list: Seq<Seq<char>>, class: Seq<char>)
    requires
        list.no_duplicates(),
    ensures
        forall|c: Seq<char>|
            #[trigger] toggle_class(toggle_class(list, class), class).contains(c)
                <==> list.contains(c),
        !list.contains(class) ==> toggle_class(toggle_class(list, class), class) == list,
{
    let once = toggle_class(list, class);
    if list.contains(class) {
        let i = list.index_of(class);
        lemma_remove_keeps_no_duplicates(list, i);
        assert(!once.contains(class));
        lemma_add_keeps_no_duplicates(once, class);
        assert(toggle_class(once, class) == once.push(class));
    } else {
        lemma_add_keeps_no_duplicates(list, class);
        let n = list.len() as int;
        assert(once == list.push(class));
        assert(once[n] == class);
        assert(once.index_of(class) == n) by {
            let k = once.index_of(class);
            if k != n {
                assert(list[k] == class);
            }
        }
        assert(once.remove(n) =~= list);
    }
}

/// The text form of a class list parses back to the same list: joining
/// classes that are not empty, hold no whitespace and occur once each with
/// single spaces (as [`ClassList::to_string`] does), then reading the text as
/// [`ClassList::new`] does, gives the same classes in the same order.
pub proof fn lemma_text_form_parses_back(list: Seq<Seq<char>>)
    requires
        list.no_duplicates(),
        forall|i: int| 0 <= i < list.len() ==> #[trigger] list[i].len() > 0,
        forall|i: int, j: int|
            0 <= i < list.len() && 0 <= j < list[i].len() ==> !char_is_whitespace(
                #[trigger] list[i][j],
            ),
    ensures
        add_classes(Seq::empty(), split_whitespace(join_words(list, seq![' ']))) == list,
{
    lemma_split_joined_words(list);
    lemma_add_distinct_classes(list);
}

/// Building a list by adding classes keeps every class once and holds exactly
/// the classes it started with and those added; adding classes that are all
/// different, to an empty list, keeps them in the order given.
pub proof fn lemma_add_classes_holds_exactly(list: Seq<Seq<char>>, classes: Seq<Seq<char>>)
    requires
        list.no_duplicates(),
    ensures
        add_classes(list, classes).no_duplicates(),
        forall|c: Seq<char>|
            #[trigger] add_classes(list, classes).contains(c) <==> (list.contains(c)
                || classes.contains(c)),
        classes.no_duplicates() ==> add_classes(Seq::empty(), classes) == classes,
    decreases classes.len(),
{
    lemma_add_classes_no_duplicates(list, classes);
    if classes.len() > 0 {
        let init = classes.drop_last();
        let last = classes.last();
        lemma_add_classes_holds_exactly(list, init);
        lemma_add_keeps_no_duplicates(add_classes(list, init), last);
        assert forall|c: Seq<char>|
            #[trigger] add_classes(list, classes).contains(c) <==> (list.contains(c)
                || classes.contains(c)) by {
            assert(add_classes(list, classes) == add_class(add_classes(list, init), last));
            assert(add_classes(list, init).contains(c) == (list.contains(c) || init.contains(c)));
            if init.contains(c) {
                let k = choose|k: int| 0 <= k < init.len() && init[k] == c;
                assert(classes[k] == c);
            }
            if classes.contains(c) {
                let k = choose|k: int| 0 <= k < classes.len() && classes[k] == c;
                if k < init.len() {
                    assert(init[k] == c);
                }
            }
            assert(classes[classes.len() - 1] == last);
        }
    }
    if classes.no_duplicates() {
        lemma_add_distinct_classes(classes);
    }
}

/// Adding classes that are all different to an empty list keeps them as given.
proof fn lemma_add_distinct_classes(classes: Seq<Seq<char>>)
    requires
        classes.no_duplicates(),
    ensures
        add_classes(Seq::empty(), classes) == classes,
    decreases classes.len(),
{
    if classes.len() > 0 {
        let init = classes.drop_last();
        let last = classes.last();
        assert forall|a: int, b: int| 0 <= a < init.len() && 0 <= b < init.len() && a != b implies init[a] != init[b] by {
            assert(init[a] == classes[a] && init[b] == classes[b]);
        }
        lemma_add_distinct_classes(init);
        if init.contains(last) {
            let k = choose|k: int| 0 <= k < init.len() && init[k] == last;
            assert(classes[k] == classes[classes.len() - 1]);
        }
        assert(init.push(last) =~= classes);
    }
}

/// A word with no whitespace, read on its own, is a word still being read.
proof fn lemma_scan_single_word(w: Seq<char>)
    requires
        forall|j: int| 0 <= j < w.len() ==> !char_is_whitespace(#[trigger] w[j]),
    ensures
        scan_words(w) == (Seq::<Seq<char>>::empty(), w),
    decreases w.len(),
{
    if w.len() > 0 {
        lemma_scan_single_word(w.drop_last());
        assert(w.drop_last().push(w.last()) =~= w);
    }
}

/// Reading `x`, a space, then a word with no whitespace: the words of `x` are
/// finished and the word is being read.
proof fn lemma_scan_after_space(x: Seq<char>, w: Seq<char>)
    requires
        forall|j: int| 0 <= j < w.len() ==> !char_is_whitespace(#[trigger] w[j]),
    ensures
        scan_words(x + seq![' '] + w) == (split_whitespace(x), w),
    decreases w.len(),
{
    let t = x + seq![' '] + w;
    if w.len() == 0 {
        assert(t.drop_last() =~= x);
        assert(t.last() == ' ');
        assert(char_is_whitespace(' '));
    } else {
        lemma_scan_after_space(x, w.drop_last());
        assert(t.drop_last() =~= x + seq![' '] + w.drop_last());
        assert(w.drop_last().push(w.last()) =~= w);
    }
}

/// Splitting words joined with single spaces gives them back, when none is
/// empty or holds whitespace.
proof fn lemma_split_joined_words(list: Seq<Seq<char>>)
    requires
        forall|i: int| 0 <= i < list.len() ==> #[trigger] list[i].len() > 0,
        forall|i: int, j: int|
            0 <= i < list.len() && 0 <= j < list[i].len() ==> !char_is_whitespace(
                #[trigger] list[i][j],
            ),
    ensures
        split_whitespace(join_words(list, seq![' '])) == list,
    decreases list.len(),
{
    if list.len() == 0 {
        assert(split_whitespace(Seq::empty()) =~= list);
    } else if list.len() == 1 {
        let w = list[0];
        assert forall|j: int| 0 <= j < w.len() implies !char_is_whitespace(#[trigger] w[j]) by {
            assert(list[0][j] == w[j]);
        }
        lemma_scan_single_word(w);
        assert(Seq::<Seq<char>>::empty().push(w) =~= list);
    } else {
        let init = list.drop_last();
        let w = list.last();
        assert forall|i: int| 0 <= i < init.len() implies #[trigger] init[i].len() > 0 by {
            assert(init[i] == list[i]);
        }
        assert forall|i: int, j: int|
            0 <= i < init.len() && 0 <= j < init[i].len() implies !char_is_whitespace(
            #[trigger] init[i][j],
        ) by {
            assert(init[i] == list[i]);
        }
        assert forall|j: int| 0 <= j < w.len() implies !char_is_whitespace(#[trigger] w[j]) by {
            assert(list[list.len() - 1][j] == w[j]);
        }
        assert(w.len() > 0) by {
            assert(list[list.len() - 1].len() > 0);
        }
        lemma_split_joined_words(init);
        lemma_scan_after_space(join_words(init, seq![' ']), w);
        assert(init.push(w) =~= list);
    }
}

/// The words of a string are never empty and hold no whitespace.
pub proof fn lemma_split_words_are_nonempty_without_whitespace(s: Seq<char>)
    ensures
        forall|i: int|
            0 <= i < split_whitespace(s).len() ==> #[trigger] split_whitespace(s)[i].len() > 0,
        forall|i: int, j: int|
            0 <= i < split_whitespace(s).len() && 0 <= j < split_whitespace(s)[i].len()
                ==> !char_is_whitespace(#[trigger] split_whitespace(s)[i][j]),
{
    lemma_scan_words(s);
    let (done, current) = scan_words(s);
    if current.len() > 0 {
        assert forall|i: int| 0 <= i < split_whitespace(s).len() implies #[trigger] split_whitespace(s)[i].len() > 0 by {
            if i < done.len() {
                assert(split_whitespace(s)[i] == done[i]);
            }
        }
        assert forall|i: int, j: int|
            0 <= i < split_whitespace(s).len() && 0 <= j < split_whitespace(s)[i].len()
                implies !char_is_whitespace(#[trigger] split_whitespace(s)[i][j]) by {
            if i < done.len() {
                assert(split_whitespace(s)[i] == done[i]);
            }
        }
    }
}

proof fn lemma_scan_words(s: Seq<char>)
    ensures
        forall|i: int| 0 <= i < scan_words(s).0.len() ==> #[trigger] scan_words(s).0[i].len() > 0,
        forall|i: int, j: int|
            0 <= i < scan_words(s).0.len() && 0 <= j < scan_words(s).0[i].len()
                ==> !char_is_whitespace(#[trigger] scan_words(s).0[i][j]),
        forall|j: int|
            0 <= j < scan_words(s).1.len() ==> !char_is_whitespace(#[trigger] scan_words(s).1[j]),
    decreases s.len(),
{
    if s.len() > 0 {
        lemma_scan_words(s.drop_last());
        let (done, current) = scan_words(s.drop_last());
        let c = s.last();
        if char_is_whitespace(c) {
            if current.len() > 0 {
                let d2 = done.push(current);
                assert forall|i: int| 0 <= i < d2.len() implies #[trigger] d2[i].len() > 0 by {
                    if i < done.len() {
                        assert(d2[i] == done[i]);
                    }
                }
                assert forall|i: int, j: int|
                    0 <= i < d2.len() && 0 <= j < d2[i].len() implies !char_is_whitespace(
                    #[trigger] d2[i][j],
                ) by {
                    if i < done.len() {
                        assert(d2[i] == done[i]);
                    }
                }
            }
        } else {
            let c2 = current.push(c);
            assert forall|j: int| 0 <= j < c2.len() implies !char_is_whitespace(#[trigger] c2[j]) by {
                if j < current.len() {
                    assert(c2[j] == current[j]);
                }
            }
        }
    }
}

} // verus!
