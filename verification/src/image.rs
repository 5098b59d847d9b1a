//! Image layers: an external raster image, optionally clipped to rounded
//! corners and given a drop shadow.

use vstd::prelude::*;
use vstd::std_specs::convert::IntoSpec;
use crate::configs::style::{DropShadow, DropShadowView, PositionOption, SizeOption};
use crate::foundation::{Position, PositionOptionT, Size, SizeOptionT};
use crate::markup::{
    append_child, box_attrs, markup_of, new_element, set_attr, set_box_attrs, tagged, url_of,
    url_reference, Markup,
};
use crate::svg::SvgTangibleObject;
use crate::text::{decimal, decimal_string};

verus! {

/// A struct that represents a image.
#[derive(Debug)]
pub struct Image {
    /// The path of the image.
    /// Also, the image can be a Data URLs.
    pub path: String,
    /// The size of the image.
    pub size: Size,
    /// The rounded corner radius of the image.
    ///
    /// If the value is `None`, the image is not rounded.
    pub round: Option<usize>,
    /// The drop shadow of the image.
    ///
    /// If the value is `None`, the image is not shadowed.
    pub shadow: Option<DropShadow>,
}

/// What an image layer holds.
pub struct ImageView {
    pub path: Seq<char>,
    pub size: Size,
    pub round: Option<int>,
    pub shadow: Option<DropShadowView>,
}

impl ImageView {
    /// The space left around the image on each axis for its shadow: the
    /// shadow's clearance, the same on both sides of an axis so that the
    /// image stays centered; nothing without a shadow.
    pub open spec fn padding(self) -> (int, int) {
        match self.shadow {
            Some(shadow) => shadow.clearance(),
            None => (0, 0),
        }
    }

    /// The size of the layer: the image and its padding on every side.
    pub open spec fn outer(self) -> (int, int) {
        (self.size.0 + 2 * self.padding().0, self.size.1 + 2 * self.padding().1)
    }

    /// The width and the height of the image inside a layer of size
    /// `size`: what the padding leaves.
    pub open spec fn content(self, size: Size) -> (int, int) {
        (size.0 - 2 * self.padding().0, size.1 - 2 * self.padding().1)
    }

    /// The attributes that place the image, or a box of its extent, inside
    /// a layer of size `size`.
    pub open spec fn content_attrs(self, size: Size) -> Map<Seq<char>, Seq<char>> {
        map![
            "width"@ => decimal(self.content(size).0 as nat),
            "height"@ => decimal(self.content(size).1 as nat),
            "x"@ => decimal(self.padding().0 as nat),
            "y"@ => decimal(self.padding().1 as nat),
        ]
    }

    /// The clip path that rounds the corners by `round` pixels.
    pub open spec fn clip_path(self, size: Size, id: Seq<char>, round: int) -> Markup {
        Markup::element(
            "clipPath"@,
            map!["id"@ => "clip-"@ + id],
            seq![
                Markup::element(
                    "rect"@,
                    self.content_attrs(size).insert("rx"@, decimal(round as nat)),
                    Seq::empty(),
                ),
            ],
        )
    }

    /// The filter that draws the shadow `shadow`, with the shadow's own
    /// offsets, blur and opacity.
    pub open spec fn shadow_filter(id: Seq<char>, shadow: DropShadowView) -> Markup {
        Markup::element(
            "filter"@,
            map!["id"@ => "shadow-"@ + id],
            seq![
                Markup::element(
                    "feDropShadow"@,
                    map![
                        "dx"@ => decimal(shadow.x as nat),
                        "dy"@ => decimal(shadow.y as nat),
                        "stdDeviation"@ => decimal(shadow.blur as nat),
                        "flood-opacity"@ => shadow.opacity,
                    ],
                    Seq::empty(),
                ),
            ],
        )
    }

    /// The definitions of the layer: the clip path where the image is
    /// rounded, then the shadow filter where it has a shadow.
    pub open spec fn defs(self, size: Size, id: Seq<char>) -> Markup {
        Markup::element(
            "defs"@,
            Map::empty(),
            match self.round {
                Some(round) => seq![self.clip_path(size, id, round)],
                None => Seq::empty(),
            } + match self.shadow {
                Some(shadow) => seq![Self::shadow_filter(id, shadow)],
                None => Seq::empty(),
            },
        )
    }

    /// The box under the image that the shadow filter paints from.
    pub open spec fn shadow_box(self, size: Size, id: Seq<char>) -> Markup {
        Markup::element(
            "rect"@,
            self.content_attrs(size).insert("filter"@, url_of("shadow-"@, id)).insert(
                "rx"@,
                decimal(
                    match self.round {
                        Some(round) => round as nat,
                        None => 0,
                    },
                ),
            ),
            Seq::empty(),
        )
    }

    /// The image element itself, clipped where the image is rounded.
    pub open spec fn picture(self, size: Size, id: Seq<char>) -> Markup {
        let attrs = self.content_attrs(size).insert("href"@, self.path);
        Markup::element(
            "image"@,
            if self.round is Some {
                attrs.insert("clip-path"@, url_of("clip-"@, id))
            } else {
                attrs
            },
            Seq::empty(),
        )
    }

    /// The frame that the layer renders to: the definitions, if the image
    /// is rounded or has a shadow; the shadow's box, if it has a shadow; and
    /// the image, in this order.
    pub open spec fn frame(self, size: Size, position: Position, id: Seq<char>) -> Markup {
        Markup::element(
            "svg"@,
            box_attrs(size, position),
            if self.round is Some || self.shadow is Some {
                seq![self.defs(size, id)]
            } else {
                Seq::empty()
            } + if self.shadow is Some {
                seq![self.shadow_box(size, id)]
            } else {
                Seq::empty()
            } + seq![self.picture(size, id)],
        )
    }
}

impl View for Image {
    type V = ImageView;

    open spec fn view(&self) -> ImageView {
        ImageView {
            path: self.path@,
            size: self.size,
            round: match self.round {
                Some(round) => Some(round as int),
                None => None,
            },
            shadow: match self.shadow {
                Some(shadow) => Some(shadow@),
                None => None,
            },
        }
    }
}

impl Image {
    /// Creates a new `Image` instance, without rounding or shadow.
    pub fn new_from_path<T: Into<Size>>(path: String, size: T) -> (r: Self)
        ensures
            T::obeys_into_spec() ==> r@ == (ImageView {
                path: path@,
                size: size.into_spec(),
                round: None,
                shadow: None,
            }),
    {
        Self { path, size: size.into(), round: None, shadow: None }
    }

    /// Set the size of the image.
    pub fn set_size(&mut self, size: Size)
        ensures
            *final(self) == (Image { size, ..*old(self) }),
    {
        self.size = size;
    }

    /// Whether the padding can be written in a `usize`.
    pub open spec fn padding_fits(&self) -> bool {
        self@.padding().0 <= usize::MAX && self@.padding().1 <= usize::MAX
    }

    /// Get padding size.
    ///
    /// Padding size is the extra space around the image,
    /// which is left for the shadow.
    /// We treat the two sides in one direction with the same spacing
    /// to keep the image centered.
    ///
    /// This padding size will affect the size of the [`Image`].
    pub fn get_padding(&self) -> (r: (usize, usize))
        requires
            self.padding_fits(),
        ensures
            (r.0 as int, r.1 as int) == self@.padding(),
    {
        match &self.shadow {
            Some(drop_shadow) => drop_shadow.get_clearance(),
            None => (0, 0),
        }
    }

    /// The size policy, or `None` where the layer's size cannot be written
    /// in 32-bit pixels.
    pub fn checked_size_option(&self) -> (r: Option<SizeOption>)
        ensures
            self.sizable() <==> r is Some,
            r matches Some(option) ==> option == self.size_option(),
    {
        let padding = match &self.shadow {
            Some(drop_shadow) => match drop_shadow.checked_clearance() {
                Some(padding) => padding,
                None => { return None; },
            },
            None => (0, 0),
        };
        if padding.0 > 0x7fff_ffff || padding.1 > 0x7fff_ffff {
            return None;
        }
        let width: u64 = self.size.0 as u64 + 2 * (padding.0 as u64);
        let height: u64 = self.size.1 as u64 + 2 * (padding.1 as u64);
        if width > 0xffff_ffff || height > 0xffff_ffff {
            return None;
        }
        Some(SizeOption::Absolute(width as u32, height as u32))
    }

    /// Sets, on an element without attributes, those that place the image
    /// inside a layer of size `size`.
    fn set_content_attrs(&self, element: &mut elementtree::Element, size: Size)
        requires
            self.renders_at(size),
            markup_of(*old(element)).attrs == Map::<Seq<char>, Seq<char>>::empty(),
        ensures
            markup_of(*final(element)) == (Markup {
                attrs: self@.content_attrs(size),
                ..markup_of(*old(element))
            }),
    {
        let padding = self.get_padding();
        let gap_x: u32 = padding.0 as u32 * 2;
        let gap_y: u32 = padding.1 as u32 * 2;
        set_attr(element, "width", decimal_string((size.0 - gap_x) as u64).as_str());
        set_attr(element, "height", decimal_string((size.1 - gap_y) as u64).as_str());
        set_attr(element, "x", decimal_string(padding.0 as u64).as_str());
        set_attr(element, "y", decimal_string(padding.1 as u64).as_str());
    }
}

impl Image {
    /// Builds the clip path that rounds the corners by `round` pixels.
    fn build_clip_path(&self, size: Size, id: &str, round: usize) -> (r: elementtree::Element)
        requires
            self.renders_at(size),
        ensures
            markup_of(r) == self@.clip_path(size, id@, round as int),
    {
        let mut clip_path = new_element(None, "clipPath");
        set_attr(&mut clip_path, "id", tagged("clip-", id).as_str());
        let mut rect = new_element(None, "rect");
        self.set_content_attrs(&mut rect, size);
        set_attr(&mut rect, "rx", decimal_string(round as u64).as_str());
        append_child(&mut clip_path, rect);
        clip_path
    }

    /// Builds the filter that draws the shadow `shadow`.
    fn build_shadow_filter(id: &str, shadow: &DropShadow) -> (r: elementtree::Element)
        ensures
            markup_of(r) == ImageView::shadow_filter(id@, shadow@),
    {
        let mut filter = new_element(None, "filter");
        set_attr(&mut filter, "id", tagged("shadow-", id).as_str());
        let mut drop_shadow = new_element(None, "feDropShadow");
        set_attr(&mut drop_shadow, "dx", decimal_string(shadow.x as u64).as_str());
        set_attr(&mut drop_shadow, "dy", decimal_string(shadow.y as u64).as_str());
        set_attr(&mut drop_shadow, "stdDeviation", decimal_string(shadow.blur as u64).as_str());
        set_attr(&mut drop_shadow, "flood-opacity", shadow.opacity.as_str());
        append_child(&mut filter, drop_shadow);
        filter
    }

    /// Builds the definitions of the layer.
    fn build_defs(&self, size: Size, id: &str) -> (r: elementtree::Element)
        requires
            self.renders_at(size),
        ensures
            markup_of(r) == self@.defs(size, id@),
    {
        let mut defs = new_element(None, "defs");
        if let Some(round) = self.round {
            append_child(&mut defs, self.build_clip_path(size, id, round));
        }
        if let Some(shadow) = &self.shadow {
            append_child(&mut defs, Self::build_shadow_filter(id, shadow));
        }
        assert(markup_of(defs).children =~= self@.defs(size, id@).children);
        defs
    }

    /// Builds the box under the image that the shadow filter paints from.
    fn build_shadow_box(&self, size: Size, id: &str) -> (r: elementtree::Element)
        requires
            self.renders_at(size),
        ensures
            markup_of(r) == self@.shadow_box(size, id@),
    {
        let mut rect = new_element(None, "rect");
        self.set_content_attrs(&mut rect, size);
        set_attr(&mut rect, "filter", url_reference("shadow-", id).as_str());
        let round: usize = match self.round {
            Some(round) => round,
            None => 0,
        };
        set_attr(&mut rect, "rx", decimal_string(round as u64).as_str());
        rect
    }

    /// Builds the image element itself.
    fn build_picture(&self, size: Size, id: &str) -> (r: elementtree::Element)
        requires
            self.renders_at(size),
        ensures
            markup_of(r) == self@.picture(size, id@),
    {
        let mut img = new_element(None, "image");
        self.set_content_attrs(&mut img, size);
        set_attr(&mut img, "href", self.path.as_str());
        if self.round.is_some() {
            set_attr(&mut img, "clip-path", url_reference("clip-", id).as_str());
        }
        img
    }
}

impl Clone for Image {
    fn clone(&self) -> (r: Self)
        ensures
            r@ == self@,
    {
        Self {
            path: self.path.clone(),
            size: self.size,
            round: self.round,
            shadow: match &self.shadow {
                Some(shadow) => Some(shadow.clone()),
                None => None,
            },
        }
    }
}

impl SizeOptionT for Image {
    /// The layer's size must be a pair of 32-bit pixel counts.
    open spec fn sizable(&self) -> bool {
        self@.outer().0 <= u32::MAX && self@.outer().1 <= u32::MAX
    }

    open spec fn size_option(&self) -> SizeOption {
        SizeOption::Absolute(self@.outer().0 as u32, self@.outer().1 as u32)
    }

    fn get_size_option(&self) -> SizeOption {
        let padding = self.get_padding();
        SizeOption::Absolute(
            (self.size.0 as usize + padding.0 * 2) as u32,
            (self.size.1 as usize + padding.1 * 2) as u32,
        )
    }
}

impl PositionOptionT for Image {
    open spec fn position_option(&self) -> PositionOption {
        PositionOption::Center
    }

    fn get_position_option(&self) -> PositionOption {
        PositionOption::Center
    }
}

impl SvgTangibleObject for Image {
    /// The padding on both sides of each axis must fit inside the layer.
    open spec fn renders_at(&self, size: Size) -> bool {
        2 * self@.padding().0 <= size.0 && 2 * self@.padding().1 <= size.1
    }

    open spec fn markup(&self, size: Size, position: Position, id: Seq<char>) -> Markup {
        self@.frame(size, position, id)
    }

    open spec fn definitions(&self, size: Size, position: Position, id: Seq<char>) -> Option<
        Markup,
    > {
        None
    }

    fn to_svg(&self, size: Size, position: Position, id: String) -> (
        elementtree::Element,
        Option<elementtree::Element>,
    ) {
        let mut svg = new_element(None, "svg");
        set_box_attrs(&mut svg, size, position);

        if self.round.is_some() || self.shadow.is_some() {
            append_child(&mut svg, self.build_defs(size, id.as_str()));
        }
        if self.shadow.is_some() {
            append_child(&mut svg, self.build_shadow_box(size, id.as_str()));
        }
        append_child(&mut svg, self.build_picture(size, id.as_str()));
        assert(markup_of(svg).children =~= self@.frame(size, position, id@).children);

        (svg, None)
    }
}

/// An image without rounding and without a shadow has no padding and no
/// definitions: its frame holds the image alone, which fills it.
pub proof fn plain_image_fills_its_frame(image: ImageView, size: Size, position: Position, id: Seq<char>)
    requires
        image.round is None,
        image.shadow is None,
    ensures
        image.padding() == (0int, 0int),
        image.content(size) == size.extent(),
        image.frame(size, position, id) == Markup::element(
            "svg"@,
            box_attrs(size, position),
            seq![
                Markup::element(
                    "image"@,
                    box_attrs(size, Position(0, 0)).insert("href"@, image.path),
                    Seq::empty(),
                ),
            ],
        ),
{
    assert(image.frame(size, position, id).children =~= seq![image.picture(size, id)]);
}

} // verus!
