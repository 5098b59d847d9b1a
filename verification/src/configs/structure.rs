//! The structure of a document: its layer slots, from the bottom of the
//! stack to the top.

use vstd::prelude::*;
use crate::background::{Background, BackgroundView};
use crate::configs::style::{Style, StyleCollection, StyleView};
use crate::configs::{ConfigError, ConfigErrorView};
use crate::foundation::Size;
use crate::image::{Image, ImageView};
use crate::layers::LayerView;
use crate::svg::Canvas;

verus! {

/// The kinds of layer that a slot can ask for.
#[derive(Debug, Clone, Copy, PartialEq, Eq, Structural)]
pub enum LayerType {
    Image,
    Background,
}

/// One slot of a structure: a kind of layer, an id, and the name of the
/// style that the layer is built with.
#[derive(Debug)]
pub struct Layer {
    pub ty: LayerType,
    pub id: String,
    pub style: String,
}

/// What a slot holds.
pub struct SlotView {
    pub ty: LayerType,
    pub id: Seq<char>,
    pub style: Seq<char>,
}

impl View for Layer {
    type V = SlotView;

    open spec fn view(&self) -> SlotView {
        SlotView { ty: self.ty, id: self.id@, style: self.style@ }
    }
}

/// An ordered list of layer slots.
#[derive(Debug)]
pub struct Structure {
    layers: Vec<Layer>,
}

impl View for Structure {
    type V = Seq<SlotView>;

    closed spec fn view(&self) -> Seq<SlotView> {
        Seq::new(self.layers@.len(), |i: int| self.layers@[i]@)
    }
}

/// The collaborator that knows how large an image is.
pub trait ImageSizeProvider {
    /// Whether `size` is an answer that the provider may give for `src`.
    /// A provider that says nothing of its answers may give any.
    open spec fn provides(&self, src: Seq<char>, size: (u32, u32)) -> bool {
        true
    }

    /// The width and the height of the image that `src` refers to.
    fn get_image_size(&self, src: &str) -> (size: (u32, u32))
        ensures
            self.provides(src@, size),
    ;
}

impl SlotView {
    /// What is wrong with building the slot's layer from `style`, the style
    /// that the slot names, if anything: there is no such style, or it lacks
    /// the attribute that the slot's kind of layer cannot do without.
    pub open spec fn fault_with(self, style: Option<StyleView>) -> Option<ConfigErrorView> {
        match style {
            None => Some(ConfigErrorView::StyleNotInCollectionError(self.style)),
            Some(style) => match self.ty {
                LayerType::Image => if style.image is None {
                    Some(ConfigErrorView::ImageNotSetError(self.style))
                } else {
                    None
                },
                LayerType::Background => if style.color is None {
                    Some(ConfigErrorView::ColorNotSetError(self.style))
                } else {
                    None
                },
            },
        }
    }

    /// What is wrong with building the slot's layer from `styles`, if
    /// anything.
    pub open spec fn fault(self, styles: Map<Seq<char>, StyleView>) -> Option<ConfigErrorView> {
        self.fault_with(
            if styles.contains_key(self.style) {
                Some(styles[self.style])
            } else {
                None
            },
        )
    }

    /// The layer that the slot is built into from `style`, which has what
    /// the slot's kind needs. An image layer takes the style's image, with
    /// the size `image_size`, and its rounding and shadow; a background layer
    /// takes the style's color and blur.
    pub open spec fn layer(self, style: StyleView, image_size: (u32, u32)) -> LayerView {
        match self.ty {
            LayerType::Image => LayerView::Image(
                ImageView {
                    path: style.image->0,
                    size: Size(image_size.0, image_size.1),
                    round: style.round,
                    shadow: style.shadow,
                },
            ),
            LayerType::Background => LayerView::Background(
                BackgroundView { bg_type: style.color->0, blur: style.blur },
            ),
        }
    }
}

impl Layer {
    /// Builds the slot's layer from its style `style`. `image_size` is the
    /// size of the style's image; only an image slot reads it.
    pub fn build(&self, style: &Style, image_size: (u32, u32)) -> (r: Result<
        crate::layers::Layer,
        ConfigError,
    >)
        ensures
            match r {
                Ok(layer) => {
                    &&& self@.fault_with(Some(style@)) is None
                    &&& layer@ == self@.layer(style@, image_size)
                },
                Err(error) => self@.fault_with(Some(style@)) == Some(error@),
            },
    {
        match self.ty {
            LayerType::Image => match &style.image {
                Some(path) => Ok(
                    crate::layers::Layer::Image(
                        Image {
                            path: path.clone(),
                            size: Size(image_size.0, image_size.1),
                            round: style.round,
                            shadow: match &style.shadow {
                                Some(shadow) => Some(shadow.clone()),
                                None => None,
                            },
                        },
                    ),
                ),
                None => Err(ConfigError::ImageNotSetError(self.style.clone())),
            },
            LayerType::Background => match &style.color {
                Some(color) => Ok(
                    crate::layers::Layer::Background(
                        Background { bg_type: color.clone(), blur: style.blur },
                    ),
                ),
                None => Err(ConfigError::ColorNotSetError(self.style.clone())),
            },
        }
    }
}

/// The size of the image of an image layer; 0 by 0 for any other layer.
pub open spec fn image_size_of(layer: LayerView) -> (u32, u32) {
    match layer {
        LayerView::Image(image) => (image.size.0, image.size.1),
        _ => (0, 0),
    }
}

/// Whether slot `i` is the first that cannot be built from `styles`, and
/// `error` says what is wrong with it.
pub open spec fn first_fault(
    slots: Seq<SlotView>,
    styles: Map<Seq<char>, StyleView>,
    i: int,
    error: ConfigErrorView,
) -> bool {
    &&& 0 <= i < slots.len()
    &&& slots[i].fault(styles) == Some(error)
    &&& forall|j: int| 0 <= j < i ==> (#[trigger] slots[j]).fault(styles) is None
}

/// Whether `layers` are what `slots` are built into from `styles`, slot by
/// slot and in the same order, each image with a size that `provider` gave
/// for the image that its style names.
pub open spec fn built_from<I: ImageSizeProvider>(
    layers: Seq<crate::layers::Layer>,
    slots: Seq<SlotView>,
    styles: Map<Seq<char>, StyleView>,
    provider: I,
) -> bool {
    &&& layers.len() == slots.len()
    &&& forall|i: int|
        0 <= i < slots.len() ==> {
            &&& (#[trigger] slots[i]).fault(styles) is None
            &&& layers[i]@ == slots[i].layer(styles[slots[i].style], image_size_of(layers[i]@))
            &&& slots[i].ty == LayerType::Image ==> provider.provides(
                styles[slots[i].style].image->0,
                image_size_of(layers[i]@),
            )
        }
}

impl Structure {
    /// The structure with the slots `layers`, bottom first.
    pub fn from_vec(layers: Vec<Layer>) -> (r: Self)
        ensures
            r@ == Seq::new(layers@.len(), |i: int| layers@[i]@),
    {
        Self { layers }
    }

    /// The slots, bottom first.
    pub fn slots(&self) -> (r: &Vec<Layer>)
        ensures
            r@.len() == self@.len(),
            forall|i: int| 0 <= i < r@.len() ==> (#[trigger] r@[i])@ == self@[i],
    {
        &self.layers
    }

    /// Build the canvas from the structure and style collections.
    ///
    /// The slots are built in order, each from the style that it names, and
    /// stacked in that order. The first slot whose style is missing from
    /// `style_collections`, or lacks what the slot's kind needs, fails the
    /// whole build with its error. The size of each image is what
    /// `image_size_provider` gives for the image that the style names.
    pub fn build_canvas<I: ImageSizeProvider>(
        &self,
        style_collections: &StyleCollection,
        image_size_provider: I,
    ) -> (r: Result<Canvas, ConfigError>)
        ensures
            match r {
                Ok(canvas) => built_from(
                    canvas@,
                    self@,
                    style_collections@,
                    image_size_provider,
                ),
                Err(error) => exists|i: int| first_fault(self@, style_collections@, i, error@),
            },
    {
        let mut canvas = Canvas::default();
        let mut i: usize = 0;
        while i < self.layers.len()
            invariant
                i <= self.layers@.len(),
                built_from(
                    canvas@,
                    self@.take(i as int),
                    style_collections@,
                    image_size_provider,
                ),
            decreases self.layers@.len() - i,
        {
            let slot = &self.layers[i];
            assert(self@[i as int] == slot@);
            // Get the style of the layer.
            let style = match style_collections.get(slot.style.as_str()) {
                Some(style) => style,
                None => {
                    let error = ConfigError::StyleNotInCollectionError(slot.style.clone());
                    assert(first_fault(self@, style_collections@, i as int, error@)) by {
                        assert forall|j: int| 0 <= j < i implies (#[trigger] self@[j]).fault(
                            style_collections@,
                        ) is None by {
                            assert(self@.take(i as int)[j] == self@[j]);
                        }
                    }
                    return Err(error);
                },
            };
            let image_size = match (slot.ty, &style.image) {
                (LayerType::Image, Some(path)) => image_size_provider.get_image_size(
                    path.as_str(),
                ),
                _ => (0, 0),
            };
            match slot.build(style, image_size) {
                Ok(layer) => {
                    canvas.stack(layer);
                    assert(built_from(
                        canvas@,
                        self@.take(i + 1),
                        style_collections@,
                        image_size_provider,
                    )) by {
                        let slots = self@.take(i + 1);
                        assert forall|j: int| 0 <= j < i + 1 implies {
                            &&& (#[trigger] slots[j]).fault(style_collections@) is None
                            &&& canvas@[j]@ == slots[j].layer(
                                style_collections@[slots[j].style],
                                image_size_of(canvas@[j]@),
                            )
                            &&& slots[j].ty == LayerType::Image ==> image_size_provider.provides(
                                style_collections@[slots[j].style].image->0,
                                image_size_of(canvas@[j]@),
                            )
                        } by {
                            if j < i {
                                assert(self@.take(i as int)[j] == slots[j]);
                            }
                        }
                    }
                },
                Err(error) => {
                    assert(first_fault(self@, style_collections@, i as int, error@)) by {
                        assert forall|j: int| 0 <= j < i implies (#[trigger] self@[j]).fault(
                            style_collections@,
                        ) is None by {
                            assert(self@.take(i as int)[j] == self@[j]);
                        }
                    }
                    return Err(error);
                },
            }
            i += 1;
        }
        assert(self@.take(i as int) =~= self@);
        Ok(canvas)
    }
}

impl Default for Structure {
    /// A background slot named `bg` under an image slot named `img`, each
    /// with the style of its own name.
    fn default() -> (r: Self)
        ensures
            r@ == seq![
                SlotView { ty: LayerType::Background, id: "bg"@, style: "bg"@ },
                SlotView { ty: LayerType::Image, id: "img"@, style: "img"@ },
            ],
    {
        let bg = Layer { ty: LayerType::Background, id: "bg".to_owned(), style: "bg".to_owned() };
        let img = Layer { ty: LayerType::Image, id: "img".to_owned(), style: "img".to_owned() };
        let mut layers: Vec<Layer> = Vec::new();
        layers.push(bg);
        layers.push(img);
        let r = Self::from_vec(layers);
        assert(r@ =~= seq![
            SlotView { ty: LayerType::Background, id: "bg"@, style: "bg"@ },
            SlotView { ty: LayerType::Image, id: "img"@, style: "img"@ },
        ]);
        r
    }
}

/// A slot that names a style which the collection lacks cannot be built,
/// whatever its kind, and the fault names that style.
pub proof fn missing_style_is_a_fault(slot: SlotView, styles: Map<Seq<char>, StyleView>)
    requires
        !styles.contains_key(slot.style),
    ensures
        slot.fault(styles) == Some(ConfigErrorView::StyleNotInCollectionError(slot.style)),
{
}

} // verus!
