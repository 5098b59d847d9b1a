//! Styles: the attributes that a layer of the structure is built with.

use vstd::prelude::*;
use crate::background::{BackgroundType, BackgroundTypeView};

verus! {

/// Position of the element, customized by the user.
#[derive(Debug, Clone, Copy, PartialEq, Eq, Structural)]
pub enum PositionOption {
    /// The element is positioned at the center of the parent element.
    Center,
    /// The element is positioned at the absolute position of the parent element.
    Absolute(u32, u32),
}

/// Size of the element, customized by the user.
#[derive(Debug, Clone, Copy, PartialEq, Eq, Structural)]
pub enum SizeOption {
    /// The element is sized to fit the content (the child element).
    /// The argument is the padding of the element. (in px)
    FitContent(u32),
    /// The element is absolute sized in x and y direction. (in px)
    Absolute(u32, u32),
}

/// The clearance that a drop shadow needs on one axis: a Gaussian blur of
/// standard deviation `blur` reaches `3 * blur + 1` pixels, and the
/// shadow's offset adds to that.
pub open spec fn clearance(offset: int, blur: int) -> int {
    offset + 3 * blur + 1
}

/// A drop shadow.
///
/// `opacity` is a decimal numeral such as `0.6`; the shadow's filter
/// carries it as it is.
#[derive(Debug, PartialEq, Eq)]
pub struct DropShadow {
    /// The x offset of the drop shadow.
    pub x: usize,
    /// The y offset of the drop shadow.
    pub y: usize,
    /// The standard deviation for the blur operation in the drop shadow.
    pub blur: usize,
    /// Opacity of the effect.
    pub opacity: String,
}

/// What a drop shadow holds.
pub struct DropShadowView {
    pub x: int,
    pub y: int,
    pub blur: int,
    pub opacity: Seq<char>,
}

impl DropShadowView {
    /// The clearance on the horizontal and on the vertical axis.
    pub open spec fn clearance(self) -> (int, int) {
        (clearance(self.x, self.blur), clearance(self.y, self.blur))
    }
}

impl View for DropShadow {
    type V = DropShadowView;

    open spec fn view(&self) -> DropShadowView {
        DropShadowView {
            x: self.x as int,
            y: self.y as int,
            blur: self.blur as int,
            opacity: self.opacity@,
        }
    }
}

/// The blur of a drop shadow that names none.
pub fn default_blur() -> (r: usize)
    ensures
        r == 7,
{
    7
}

/// The opacity of a drop shadow that names none.
pub fn default_opacity() -> (r: String)
    ensures
        r@ == "0.6"@,
{
    "0.6".to_owned()
}

impl Default for DropShadow {
    fn default() -> (r: Self)
        ensures
            r@ == (DropShadowView { x: 5, y: 5, blur: 7, opacity: "0.6"@ }),
    {
        Self { x: 5, y: 5, blur: default_blur(), opacity: default_opacity() }
    }
}

impl Clone for DropShadow {
    fn clone(&self) -> (r: Self)
        ensures
            r@ == self@,
    {
        Self { x: self.x, y: self.y, blur: self.blur, opacity: self.opacity.clone() }
    }
}

impl DropShadow {
    /// A drop shadow with the given offsets and blur, and the default
    /// opacity.
    pub fn new(x: usize, y: usize, blur: usize) -> (r: Self)
        ensures
            r@ == (DropShadowView { x: x as int, y: y as int, blur: blur as int, opacity: "0.6"@ }),
    {
        Self { x, y, blur, opacity: default_opacity() }
    }

    /// Whether the clearance on both axes can be written in a `usize`.
    pub open spec fn clearance_fits(&self) -> bool {
        self@.clearance().0 <= usize::MAX && self@.clearance().1 <= usize::MAX
    }

    /// Get the utmost clearance for the drop shadow on one side.
    ///
    /// According to gaussian blur, a pixel will be affected
    /// by the pixels no more than (3 standard deviations + 1) px.
    pub fn get_clearance(&self) -> (r: (usize, usize))
        requires
            self.clearance_fits(),
        ensures
            (r.0 as int, r.1 as int) == self@.clearance(),
    {
        let x: usize = self.x + 3 * self.blur + 1;
        let y: usize = self.y + 3 * self.blur + 1;
        (x, y)
    }

    /// The clearance, or `None` where it cannot be written in a `usize`.
    pub fn checked_clearance(&self) -> (r: Option<(usize, usize)>)
        ensures
            self.clearance_fits() <==> r is Some,
            r matches Some(c) ==> (c.0 as int, c.1 as int) == self@.clearance(),
    {
        let reach = match self.blur.checked_mul(3) {
            Some(spread) => spread.checked_add(1),
            None => None,
        };
        match reach {
            Some(reach) => match (self.x.checked_add(reach), self.y.checked_add(reach)) {
                (Some(x), Some(y)) => Some((x, y)),
                _ => None,
            },
            None => None,
        }
    }
}

/// The clearance never shrinks when the offset or the blur grows.
pub proof fn clearance_is_monotonic(offset: int, blur: int, larger_offset: int, larger_blur: int)
    requires
        offset <= larger_offset,
        blur <= larger_blur,
    ensures
        clearance(offset, blur) <= clearance(larger_offset, larger_blur),
{
}

/// The attributes of one style. Each is optional: a layer takes those that
/// its kind uses.
#[derive(Debug)]
pub struct Style {
    pub position: Option<PositionOption>,
    pub size: Option<SizeOption>,
    pub image: Option<String>,
    pub round: Option<usize>,
    pub shadow: Option<DropShadow>,
    pub color: Option<BackgroundType>,
    pub blur: Option<usize>,
}

/// What a style holds.
pub struct StyleView {
    pub position: Option<PositionOption>,
    pub size: Option<SizeOption>,
    pub image: Option<Seq<char>>,
    pub round: Option<int>,
    pub shadow: Option<DropShadowView>,
    pub color: Option<BackgroundTypeView>,
    pub blur: Option<int>,
}

impl View for Style {
    type V = StyleView;

    open spec fn view(&self) -> StyleView {
        StyleView {
            position: self.position,
            size: self.size,
            image: match self.image {
                Some(image) => Some(image@),
                None => None,
            },
            round: match self.round {
                Some(round) => Some(round as int),
                None => None,
            },
            shadow: match self.shadow {
                Some(shadow) => Some(shadow@),
                None => None,
            },
            color: match self.color {
                Some(color) => Some(color@),
                None => None,
            },
            blur: match self.blur {
                Some(blur) => Some(blur as int),
                None => None,
            },
        }
    }
}

impl StyleView {
    /// The style without any attribute.
    pub open spec fn empty() -> StyleView {
        StyleView {
            position: None,
            size: None,
            image: None,
            round: None,
            shadow: None,
            color: None,
            blur: None,
        }
    }
}

impl Clone for Style {
    fn clone(&self) -> (r: Self)
        ensures
            r@ == self@,
    {
        Self {
            position: self.position,
            size: self.size,
            image: match &self.image {
                Some(image) => Some(image.clone()),
                None => None,
            },
            round: self.round,
            shadow: match &self.shadow {
                Some(shadow) => Some(shadow.clone()),
                None => None,
            },
            color: match &self.color {
                Some(color) => Some(color.clone()),
                None => None,
            },
            blur: self.blur,
        }
    }
}

impl Default for Style {
    fn default() -> (r: Self)
        ensures
            r@ == StyleView::empty(),
    {
        Self {
            position: None,
            size: None,
            image: None,
            round: None,
            shadow: None,
            color: None,
            blur: None,
        }
    }
}

/// Whether no name occurs twice among the entries.
spec fn names_differ(entries: Seq<(String, Style)>) -> bool {
    forall|i: int, j: int|
        0 <= i < j < entries.len() ==> (#[trigger] entries[i]).0@ != (#[trigger] entries[j]).0@
}

/// Whether entry `i` has the name `name`.
spec fn named(entries: Seq<(String, Style)>, name: Seq<char>, i: int) -> bool {
    0 <= i < entries.len() && entries[i].0@ == name
}

/// The dictionary that the entries spell out.
spec fn dictionary(entries: Seq<(String, Style)>) -> Map<Seq<char>, StyleView> {
    Map::new(
        |name: Seq<char>| exists|i: int| named(entries, name, i),
        |name: Seq<char>| entries[choose|i: int| named(entries, name, i)].1@,
    )
}

/// Among entries with different names, the entry of a name is the one that
/// the dictionary holds for it.
proof fn lemma_dictionary_entry(entries: Seq<(String, Style)>, name: Seq<char>, i: int)
    requires
        names_differ(entries),
        named(entries, name, i),
    ensures
        dictionary(entries).contains_key(name),
        dictionary(entries)[name] == entries[i].1@,
{
    let k = choose|k: int| named(entries, name, k);
    assert(named(entries, name, k));
    if k < i {
        assert(entries[k].0@ != entries[i].0@);
    } else if i < k {
        assert(entries[i].0@ != entries[k].0@);
    }
}

/// Entries `after` that differ from `before` in the entry of the name
/// `id@` alone, which is now `style`, spell out the dictionary of `before`
/// with `id@` set to `style@`.
proof fn lemma_dictionary_insert(
    before: Seq<(String, Style)>,
    after: Seq<(String, Style)>,
    id: String,
    style: Style,
    at: int,
)
    requires
        names_differ(before),
        forall|i: int| !named(before, id@, i) || i == at,
        0 <= at <= before.len(),
        at < before.len() ==> named(before, id@, at) && after == before.update(at, (id, style)),
        at == before.len() ==> after == before.push((id, style)),
    ensures
        names_differ(after),
        dictionary(after) == dictionary(before).insert(id@, style@),
{
    assert forall|i: int, j: int| 0 <= i < j < after.len() implies (#[trigger] after[i]).0@ != (
    #[trigger] after[j]).0@ by {
        if j < before.len() {
            assert(before[i].0@ != before[j].0@);
        } else {
            assert(!named(before, id@, i));
        }
    }
    assert(named(after, id@, at));
    lemma_dictionary_entry(after, id@, at);
    assert forall|name: Seq<char>| #[trigger]
        dictionary(after).contains_key(name) <==> dictionary(before).insert(
            id@,
            style@,
        ).contains_key(name) by {
        if name != id@ {
            if dictionary(after).contains_key(name) {
                let k = choose|k: int| named(after, name, k);
                assert(named(before, name, k));
            }
            if dictionary(before).contains_key(name) {
                let k = choose|k: int| named(before, name, k);
                assert(named(after, name, k));
            }
        }
    }
    assert forall|name: Seq<char>| #[trigger] dictionary(after).contains_key(name) implies dictionary(
        after,
    )[name] == dictionary(before).insert(id@, style@)[name] by {
        if name != id@ {
            let k = choose|k: int| named(after, name, k);
            assert(named(before, name, k));
            lemma_dictionary_entry(after, name, k);
            lemma_dictionary_entry(before, name, k);
        }
    }
    assert(dictionary(after) =~= dictionary(before).insert(id@, style@));
}

/// A dictionary of styles by name.
#[derive(Debug)]
pub struct StyleCollection {
    styles: Vec<(String, Style)>,
}

impl View for StyleCollection {
    type V = Map<Seq<char>, StyleView>;

    closed spec fn view(&self) -> Map<Seq<char>, StyleView> {
        dictionary(self.styles@)
    }
}

impl Default for StyleCollection {
    fn default() -> (r: Self)
        ensures
            r@ == Map::<Seq<char>, StyleView>::empty(),
    {
        Self::new()
    }
}

impl StyleCollection {
    #[verifier::type_invariant]
    spec fn names_are_unique(&self) -> bool {
        names_differ(self.styles@)
    }

    /// A collection without styles.
    pub fn new() -> (r: Self)
        ensures
            r@ == Map::<Seq<char>, StyleView>::empty(),
    {
        let r = Self { styles: Vec::new() };
        assert(r@ =~= Map::<Seq<char>, StyleView>::empty());
        r
    }

    /// The index of the style named `id`, if there is one.
    fn position_of(&self, id: &String) -> (r: Option<usize>)
        ensures
            match r {
                Some(i) => named(self.styles@, id@, i as int),
                None => forall|i: int| !named(self.styles@, id@, i),
            },
    {
        let mut i: usize = 0;
        while i < self.styles.len()
            invariant
                i <= self.styles@.len(),
                forall|j: int| 0 <= j < i ==> !named(self.styles@, id@, j),
            decreases self.styles@.len() - i,
        {
            if self.styles[i].0 == *id {
                return Some(i);
            }
            i += 1;
        }
        None
    }

    /// The style named `id`, if the collection has one.
    pub fn get(&self, id: &str) -> (r: Option<&Style>)
        ensures
            match r {
                Some(style) => self@.contains_key(id@) && self@[id@] == style@,
                None => !self@.contains_key(id@),
            },
    {
        proof {
            use_type_invariant(self);
        }
        match self.position_of(&id.to_owned()) {
            Some(i) => {
                proof {
                    lemma_dictionary_entry(self.styles@, id@, i as int);
                }
                Some(&self.styles[i].1)
            },
            None => None,
        }
    }

    /// The names that have a style, each once.
    pub fn names(&self) -> (r: Vec<String>)
        ensures
            forall|name: Seq<char>|
                self@.contains_key(name) <==> exists|i: int|
                    0 <= i < r@.len() && (#[trigger] r@[i])@ == name,
            forall|i: int, j: int|
                0 <= i < j < r@.len() ==> (#[trigger] r@[i])@ != (#[trigger] r@[j])@,
    {
        proof {
            use_type_invariant(self);
        }
        let mut names: Vec<String> = Vec::new();
        let mut i: usize = 0;
        while i < self.styles.len()
            invariant
                i <= self.styles@.len(),
                names@.len() == i,
                forall|j: int| 0 <= j < i ==> (#[trigger] names@[j])@ == self.styles@[j].0@,
            decreases self.styles@.len() - i,
        {
            names.push(self.styles[i].0.clone());
            i += 1;
        }
        assert forall|name: Seq<char>|
            self@.contains_key(name) <==> exists|i: int|
                0 <= i < names@.len() && (#[trigger] names@[i])@ == name by {
            if self@.contains_key(name) {
                let k = choose|k: int| named(self.styles@, name, k);
                assert(names@[k]@ == name);
            }
            if exists|i: int| 0 <= i < names@.len() && (#[trigger] names@[i])@ == name {
                let k = choose|i: int| 0 <= i < names@.len() && (#[trigger] names@[i])@ == name;
                assert(named(self.styles@, name, k));
            }
        }
        assert forall|i: int, j: int| 0 <= i < j < names@.len() implies (#[trigger] names@[i])@ != (
        #[trigger] names@[j])@ by {
            assert(self.styles@[i].0@ != self.styles@[j].0@);
        }
        names
    }

    /// Gives the name `id` the style `style`, in place of the style that it
    /// had, if it had one.
    pub fn add(&mut self, id: String, style: Style)
        ensures
            final(self)@ == old(self)@.insert(id@, style@),
    {
        proof {
            use_type_invariant(&*self);
        }
        let ghost before = self.styles@;
        let found = self.position_of(&id);
        let mut styles: Vec<(String, Style)> = Vec::new();
        core::mem::swap(&mut self.styles, &mut styles);
        proof {
            let at = match found {
                Some(i) => i as int,
                None => before.len() as int,
            };
            assert forall|i: int| !named(before, id@, i) || i == at by {
                if named(before, id@, i) && i != at {
                    if i < at {
                        assert(before[i].0@ != before[at].0@);
                    } else {
                        assert(before[at].0@ != before[i].0@);
                    }
                }
            }
            lemma_dictionary_insert(
                before,
                match found {
                    Some(i) => before.update(i as int, (id, style)),
                    None => before.push((id, style)),
                },
                id,
                style,
                at,
            );
        }
        match found {
            Some(i) => {
                styles.set(i, (id, style));
            },
            None => {
                styles.push((id, style));
            },
        }
        core::mem::swap(&mut self.styles, &mut styles);
    }
}

} // verus!
