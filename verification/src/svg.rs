//! The layer contract, the canvas, and the layout that turns policies
//! into pixel geometry.

use vstd::prelude::*;
use vstd::std_specs::convert::IntoSpec;
use crate::configs::style::{PositionOption, SizeOption};
use crate::foundation::{Position, PositionOptionT, Size, SizeOptionT};
use crate::layers::Layer;
use crate::markup::{
    append_child, child_count, element_to_string, error_message, markup_of, new_element,
    set_attr, xml_text, Markup,
};
use crate::text::{decimal, decimal_string};

verus! {

/// The size that a policy resolves to around content of size `child`:
/// the content plus the padding on every side, or the fixed size whatever
/// the content.
pub open spec fn resolved_size(option: SizeOption, child: (int, int)) -> (int, int) {
    match option {
        SizeOption::FitContent(padding) => (child.0 + 2 * padding, child.1 + 2 * padding),
        SizeOption::Absolute(width, height) => (width as int, height as int),
    }
}

/// Whether a size is a pair of 32-bit pixel counts.
pub open spec fn fits_pixels(size: (int, int)) -> bool {
    0 <= size.0 <= u32::MAX && 0 <= size.1 <= u32::MAX
}

/// The offset that centers `own` pixels inside `container` pixels, rounded
/// towards the origin. There are no negative coordinates: what is larger
/// than its container starts at the origin.
pub open spec fn centered(container: int, own: int) -> int {
    if container >= own {
        (container - own) / 2
    } else {
        0
    }
}

/// The position that a policy resolves to for a layer of size `own` inside
/// a container of size `container`.
pub open spec fn resolved_position(
    option: PositionOption,
    container: (int, int),
    own: (int, int),
) -> (int, int) {
    match option {
        PositionOption::Center => (centered(container.0, own.0), centered(container.1, own.1)),
        PositionOption::Absolute(x, y) => (x as int, y as int),
    }
}

/// Something that renders to a markup element by itself.
pub trait SvgObject {
    /// Whether the object can be rendered.
    spec fn renderable(&self) -> bool;

    /// The markup that the object renders to.
    spec fn document(&self) -> Markup;

    /// Render the object.
    fn to_svg(&self) -> (r: elementtree::Element)
        requires
            self.renderable(),
        ensures
            markup_of(r) == self.document(),
    ;
}

/// A layer: it has a size policy and a position policy, and renders to
/// markup once both are resolved.
pub trait SvgTangibleObject: SizeOptionT + PositionOptionT {
    /// Resolve the position policy inside a container of size
    /// `parent_size`, for the layer's own resolved size `size`.
    fn cal_position(&self, parent_size: Size, size: Size) -> (r: Position)
        ensures
            (r.0 as int, r.1 as int) == resolved_position(
                self.position_option(),
                parent_size.extent(),
                size.extent(),
            ),
    {
        match self.get_position_option() {
            PositionOption::Center => {
                let x: u32 = if parent_size.0 >= size.0 {
                    (parent_size.0 - size.0) / 2
                } else {
                    0
                };
                let y: u32 = if parent_size.1 >= size.1 {
                    (parent_size.1 - size.1) / 2
                } else {
                    0
                };
                Position(x, y)
            },
            PositionOption::Absolute(x, y) => Position(x, y),
        }
    }

    /// Resolve the size policy around content of size `child_size`.
    fn cal_size(&self, child_size: Size) -> (r: Size)
        requires
            self.sizable(),
            fits_pixels(resolved_size(self.size_option(), child_size.extent())),
        ensures
            r.extent() == resolved_size(self.size_option(), child_size.extent()),
    {
        match self.get_size_option() {
            SizeOption::FitContent(padding) => {
                let width: u32 = child_size.0 + padding * 2;
                let height: u32 = child_size.1 + padding * 2;
                Size(width, height)
            },
            SizeOption::Absolute(width, height) => Size(width, height),
        }
    }

    /// Whether the layer can be rendered at the resolved size `size`.
    spec fn renders_at(&self, size: Size) -> bool;

    /// The element that the layer renders to.
    spec fn markup(&self, size: Size, position: Position, id: Seq<char>) -> Markup;

    /// The definitions that the layer hands up to the document's shared
    /// definitions block, if it has any.
    spec fn definitions(&self, size: Size, position: Position, id: Seq<char>) -> Option<Markup>;

    /// Generate svg elements with the given size and position.
    ///
    /// * `size`: the resolved size of the layer
    /// * `position`: the resolved position of the layer
    /// * `id`: a text that no other layer of the document is given; every
    ///   definition that the layer creates carries it in its id
    fn to_svg(&self, size: Size, position: Position, id: String) -> (r: (
        elementtree::Element,
        Option<elementtree::Element>,
    ))
        requires
            self.renders_at(size),
        ensures
            markup_of(r.0) == self.markup(size, position, id@),
            match r.1 {
                Some(defs) => self.definitions(size, position, id@) == Some(markup_of(defs)),
                None => self.definitions(size, position, id@) is None,
            },
    ;
}

/// The size as a pair of pixel counts.
pub open spec fn pixels(size: (int, int)) -> Size {
    Size(size.0 as u32, size.1 as u32)
}

/// The size that layer `i` of the stack resolves to. Sizes are resolved
/// from the top of the stack down: each layer resolves its policy around
/// the size of the layer above it, and the topmost around nothing.
pub open spec fn size_at(layers: Seq<Layer>, i: int) -> (int, int)
    decreases layers.len() - i,
{
    if 0 <= i < layers.len() {
        resolved_size(layers[i].size_option(), size_at(layers, i + 1))
    } else {
        (0, 0)
    }
}

/// The position that layer `i` of the stack resolves to. Positions are
/// resolved from the bottom of the stack up: each layer is placed inside
/// the footprint of the layer beneath it, and the bottommost inside
/// nothing.
pub open spec fn position_at(layers: Seq<Layer>, i: int) -> (int, int) {
    resolved_position(
        layers[i].position_option(),
        if i == 0 {
            (0, 0)
        } else {
            size_at(layers, i - 1)
        },
        size_at(layers, i),
    )
}

/// Whether layer `i` has a size policy and resolves to a size in 32-bit
/// pixels.
pub open spec fn sized_at(layers: Seq<Layer>, i: int) -> bool {
    layers[i].sizable() && fits_pixels(size_at(layers, i))
}

/// Whether every layer has a size policy and resolves to a size in 32-bit
/// pixels.
pub open spec fn layout_fits(layers: Seq<Layer>) -> bool {
    forall|i: int| 0 <= i < layers.len() ==> sized_at(layers, i)
}

/// Whether layer `i` can be rendered at the size it resolves to.
pub open spec fn rendered_at(layers: Seq<Layer>, i: int) -> bool {
    layers[i].renders_at(pixels(size_at(layers, i)))
}

/// Whether every layer can be rendered at the size it resolves to.
pub open spec fn all_render(layers: Seq<Layer>) -> bool {
    forall|i: int| 0 <= i < layers.len() ==> rendered_at(layers, i)
}

/// The position of layer `i` as a pair of pixel counts.
pub open spec fn place_at(layers: Seq<Layer>, i: int) -> Position {
    Position(position_at(layers, i).0 as u32, position_at(layers, i).1 as u32)
}

/// The element of layer `i`: the layer rendered at its resolved size and
/// position, with its index in the stack, in decimal, as its id.
pub open spec fn element_at(layers: Seq<Layer>, i: int) -> Markup {
    layers[i].markup(pixels(size_at(layers, i)), place_at(layers, i), decimal(i as nat))
}

/// The definitions that the first `n` layers hand up, in the layers' order.
pub open spec fn shared_definitions(layers: Seq<Layer>, n: int) -> Seq<Markup>
    decreases n,
{
    if n <= 0 {
        Seq::empty()
    } else {
        let rest = shared_definitions(layers, n - 1);
        match layers[n - 1].definitions(
            pixels(size_at(layers, n - 1)),
            place_at(layers, n - 1),
            decimal((n - 1) as nat),
        ) {
            Some(definitions) => rest.push(definitions),
            None => rest,
        }
    }
}

/// The root of a document of size `size`, before any layer is added.
pub open spec fn root_of(size: Size) -> Markup {
    Markup::root(
        "http://www.w3.org/2000/svg"@,
        "svg"@,
        map!["width"@ => decimal(size.0 as nat), "height"@ => decimal(size.1 as nat)],
        Seq::empty(),
    )
}

/// The document of a stack of layers. Its root carries the size of the
/// bottommost layer, which wraps all the others, or 0 by 0 for an empty
/// stack. Its children are the layers' elements from the bottom of the
/// stack up, and after them one block of the definitions that the layers
/// hand up, if they hand up any.
pub open spec fn document_of(layers: Seq<Layer>) -> Markup {
    let definitions = shared_definitions(layers, layers.len() as int);
    Markup {
        children: Seq::new(layers.len(), |i: int| element_at(layers, i)) + if definitions.len()
            == 0 {
            Seq::empty()
        } else {
            seq![Markup::element("defs"@, Map::empty(), definitions)]
        },
        ..root_of(pixels(size_at(layers, 0)))
    }
}

/// A canvas is a container for a series of layers.
#[derive(Debug)]
pub struct Canvas {
    /// A series of layers that are rendered in order.
    ///
    /// The first layer is rendered first, and the last layer is rendered last.
    layers: Vec<Layer>,
}

impl View for Canvas {
    type V = Seq<Layer>;

    /// The layers, from the bottom of the stack to the top.
    closed spec fn view(&self) -> Seq<Layer> {
        self.layers@
    }
}

impl Default for Canvas {
    fn default() -> (r: Self)
        ensures
            r@ == Seq::<Layer>::empty(),
    {
        Self::new()
    }
}

impl Canvas {
    /// A canvas without layers.
    pub fn new() -> (r: Self)
        ensures
            r@ == Seq::<Layer>::empty(),
    {
        Self { layers: Vec::new() }
    }

    /// Puts `layer` on top of the stack.
    pub(crate) fn stack(&mut self, layer: Layer)
        ensures
            final(self)@ == old(self)@.push(layer),
    {
        self.layers.push(layer);
    }

    /// Puts `layer` on top of the stack.
    pub fn add_layer_on_top<L: Into<Layer>>(&mut self, layer: L)
        ensures
            L::obeys_into_spec() ==> final(self)@ == old(self)@.push(layer.into_spec()),
            final(self)@.len() == old(self)@.len() + 1,
            final(self)@.take(old(self)@.len() as int) == old(self)@,
    {
        self.stack(layer.into());
        assert(self@.take(old(self)@.len() as int) =~= old(self)@);
    }

    /// The number of layers.
    pub fn layer_count(&self) -> (n: usize)
        ensures
            n == self@.len(),
    {
        self.layers.len()
    }

    /// The root element of a document of size `size`, without children.
    pub fn build_svg_canvas(&self, size: Size) -> (root: elementtree::Element)
        ensures
            markup_of(root) == root_of(size),
    {
        proof {
            reveal_strlit("http://www.w3.org/2000/svg");
            reveal_strlit("");
            reveal_strlit("http://www.w3.org/XML/1998/namespace");
            reveal_strlit("http://www.w3.org/2000/xmlns/");
            assert("http://www.w3.org/2000/svg"@.len() == 26);
            assert(""@.len() == 0);
            assert("http://www.w3.org/XML/1998/namespace"@.len() == 36);
            assert("http://www.w3.org/2000/xmlns/"@.len() == 29);
        }
        let mut root = new_element(Some("http://www.w3.org/2000/svg"), "svg");
        set_attr(&mut root, "width", decimal_string(size.0 as u64).as_str());
        set_attr(&mut root, "height", decimal_string(size.1 as u64).as_str());
        root
    }
}

/// Why a canvas could not be turned into a document.
#[derive(Debug)]
pub enum RenderError {
    /// The layer at this index has no size in 32-bit pixels.
    TooLarge(usize),
    /// The layer at this index is of a kind that cannot be rendered.
    Unimplemented(usize),
    /// The document could not be written as text; the message says why.
    Markup(String),
}

/// What a render error holds.
pub enum RenderErrorView {
    TooLarge(int),
    Unimplemented(int),
    Markup(Seq<char>),
}

impl View for RenderError {
    type V = RenderErrorView;

    open spec fn view(&self) -> RenderErrorView {
        match self {
            RenderError::TooLarge(layer) => RenderErrorView::TooLarge(*layer as int),
            RenderError::Unimplemented(layer) => RenderErrorView::Unimplemented(*layer as int),
            RenderError::Markup(message) => RenderErrorView::Markup(message@),
        }
    }
}

impl RenderErrorView {
    /// The error in words: which layer is at fault and why, or the
    /// writer's own message.
    pub open spec fn message(self) -> Seq<char> {
        match self {
            RenderErrorView::TooLarge(layer) => "Layer "@ + decimal(layer as nat)
                + " has no size in 32-bit pixels."@,
            RenderErrorView::Unimplemented(layer) => "Layer "@ + decimal(layer as nat)
                + " is of a kind that cannot be rendered."@,
            RenderErrorView::Markup(message) => message,
        }
    }
}

impl RenderError {
    /// The error in words.
    pub fn message(&self) -> (r: String)
        ensures
            r@ == self@.message(),
    {
        match self {
            RenderError::TooLarge(layer) => {
                let mut r = "Layer ".to_owned();
                r.append(decimal_string(*layer as u64).as_str());
                r.append(" has no size in 32-bit pixels.");
                r
            },
            RenderError::Unimplemented(layer) => {
                let mut r = "Layer ".to_owned();
                r.append(decimal_string(*layer as u64).as_str());
                r.append(" is of a kind that cannot be rendered.");
                r
            },
            RenderError::Markup(message) => message.clone(),
        }
    }
}

/// Whether `i` is the topmost layer without a size in 32-bit pixels.
pub open spec fn topmost_unsized(layers: Seq<Layer>, i: int) -> bool {
    &&& 0 <= i < layers.len()
    &&& !sized_at(layers, i)
    &&& forall|j: int| i < j < layers.len() ==> sized_at(layers, j)
}

/// Whether `i` is the bottommost layer that cannot be rendered.
pub open spec fn bottommost_unrendered(layers: Seq<Layer>, i: int) -> bool {
    &&& 0 <= i < layers.len()
    &&& !rendered_at(layers, i)
    &&& forall|j: int| 0 <= j < i ==> rendered_at(layers, j)
}

impl Canvas {
    /// The size pass: the size of every layer, from the bottom of the stack
    /// to the top, or the index of the topmost layer that has none.
    pub fn resolve_sizes(&self) -> (r: Result<Vec<Size>, usize>)
        ensures
            match r {
                Ok(sizes) => {
                    &&& layout_fits(self@)
                    &&& sizes@.len() == self@.len()
                    &&& forall|i: int|
                        0 <= i < sizes@.len() ==> (#[trigger] sizes@[i]).extent() == size_at(
                            self@,
                            i,
                        )
                },
                Err(i) => topmost_unsized(self@, i as int),
            },
    {
        let n = self.layers.len();
        let mut sizes: Vec<Size> = Vec::new();
        while sizes.len() < n
            invariant
                sizes.len() <= n,
            decreases n - sizes.len(),
        {
            sizes.push(Size(0, 0));
        }
        let mut child_size = Size(0, 0);
        let mut k: usize = n;
        while k > 0
            invariant
                n == self.layers@.len(),
                sizes@.len() == n,
                k <= n,
                child_size.extent() == size_at(self.layers@, k as int),
                forall|j: int| k <= j < n ==> sized_at(self.layers@, j),
                forall|j: int|
                    k <= j < n ==> (#[trigger] sizes@[j]).extent() == size_at(self.layers@, j),
            decreases k,
        {
            k -= 1;
            match self.layers[k].checked_size(child_size) {
                Some(size) => {
                    sizes.set(k, size);
                    child_size = size;
                },
                None => {
                    return Err(k);
                },
            }
        }
        Ok(sizes)
    }

    /// Whether the canvas can be rendered, and if not, why not: the size
    /// pass fails first, at the topmost layer without a size; then the
    /// bottommost layer that cannot be rendered is named.
    pub fn validate(&self) -> (r: Result<(), RenderError>)
        ensures
            match r {
                Ok(_) => self.renderable(),
                Err(RenderError::TooLarge(i)) => topmost_unsized(self@, i as int),
                Err(RenderError::Unimplemented(i)) => layout_fits(self@) && bottommost_unrendered(
                    self@,
                    i as int,
                ),
                Err(RenderError::Markup(_)) => false,
            },
    {
        let sizes = match self.resolve_sizes() {
            Ok(sizes) => sizes,
            Err(i) => {
                return Err(RenderError::TooLarge(i));
            },
        };
        let mut i: usize = 0;
        while i < self.layers.len()
            invariant
                i <= self.layers@.len(),
                sizes@.len() == self.layers@.len(),
                layout_fits(self.layers@),
                forall|j: int|
                    0 <= j < sizes@.len() ==> (#[trigger] sizes@[j]).extent() == size_at(
                        self.layers@,
                        j,
                    ),
                forall|j: int| 0 <= j < i ==> rendered_at(self.layers@, j),
            decreases self.layers@.len() - i,
        {
            assert(sizes@[i as int].extent() == size_at(self.layers@, i as int));
            if !self.layers[i].can_render_at(sizes[i]) {
                return Err(RenderError::Unimplemented(i));
            }
            i += 1;
        }
        Ok(())
    }
}

impl SvgObject for Canvas {
    /// Every layer must have a size in 32-bit pixels and be of a kind that
    /// can be rendered.
    open spec fn renderable(&self) -> bool {
        layout_fits(self@) && all_render(self@)
    }

    open spec fn document(&self) -> Markup {
        document_of(self@)
    }

    fn to_svg(&self) -> elementtree::Element {
        let sizes = match self.resolve_sizes() {
            Ok(sizes) => sizes,
            Err(_) => unreached(),
        };
        let document_size = if self.layers.len() > 0 {
            sizes[0]
        } else {
            Size(0, 0)
        };
        let mut root = self.build_svg_canvas(document_size);
        let mut defs = new_element(None, "defs");
        let mut parent_size = Size(0, 0);
        let mut i: usize = 0;
        while i < self.layers.len()
            invariant
                i <= self.layers@.len(),
                sizes@.len() == self.layers@.len(),
                layout_fits(self.layers@),
                all_render(self.layers@),
                forall|j: int|
                    0 <= j < sizes@.len() ==> (#[trigger] sizes@[j]).extent() == size_at(
                        self.layers@,
                        j,
                    ),
                parent_size.extent() == if i == 0 {
                    (0, 0)
                } else {
                    size_at(self.layers@, i - 1)
                },
                markup_of(root) == (Markup {
                    children: markup_of(root).children,
                    ..root_of(document_size)
                }),
                markup_of(root).children == Seq::new(
                    i as nat,
                    |j: int| element_at(self.layers@, j),
                ),
                markup_of(defs) == Markup::element(
                    "defs"@,
                    Map::empty(),
                    markup_of(defs).children,
                ),
                markup_of(defs).children == shared_definitions(self.layers@, i as int),
            decreases self.layers@.len() - i,
        {
            let size = sizes[i];
            assert(size.extent() == size_at(self.layers@, i as int));
            assert(rendered_at(self.layers@, i as int));
            let position = self.layers[i].cal_position(parent_size, size);
            parent_size = size;
            let (child, definitions) = self.layers[i].to_svg(
                size,
                position,
                decimal_string(i as u64),
            );
            append_child(&mut root, child);
            if let Some(definitions) = definitions {
                append_child(&mut defs, definitions);
            }
            assert(markup_of(root).children =~= Seq::new(
                (i + 1) as nat,
                |j: int| element_at(self.layers@, j),
            ));
            i += 1;
        }
        if child_count(&defs) != 0 {
            append_child(&mut root, defs);
        }
        assert(markup_of(root).children =~= document_of(self@).children);
        root
    }
}

/// What writing a document as text comes to: the text, or the writer's
/// message as a [`RenderError::Markup`].
pub fn written(outcome: Result<String, elementtree::Error>) -> (r: Result<String, RenderError>)
    ensures
        match outcome {
            Ok(text) => r == Ok::<String, RenderError>(text),
            Err(_) => r matches Err(RenderError::Markup(_)),
        },
{
    match outcome {
        Ok(text) => Ok(text),
        Err(error) => Err(RenderError::Markup(error_message(&error))),
    }
}

impl Canvas {
    /// Renders the canvas and writes its document as XML text.
    ///
    /// A canvas that cannot be rendered gives the error of [`Canvas::validate`]
    /// and no text. A canvas that can be rendered gives the text of its
    /// document, and an error only where the writer fails on that document.
    pub fn to_svg_string(&self) -> (r: Result<String, RenderError>)
        ensures
            match r {
                Ok(text) => self.renderable() && xml_text(document_of(self@)) == Some(text@),
                Err(RenderError::TooLarge(i)) => topmost_unsized(self@, i as int),
                Err(RenderError::Unimplemented(i)) => layout_fits(self@) && bottommost_unrendered(
                    self@,
                    i as int,
                ),
                Err(RenderError::Markup(_)) => self.renderable() && xml_text(
                    document_of(self@),
                ) is None,
            },
    {
        match self.validate() {
            Ok(_) => {},
            Err(error) => {
                return Err(error);
            },
        }
        let document = self.to_svg();
        written(element_to_string(&document))
    }
}

/// A layer that fits its content resolves to the content's size plus its
/// padding on every side.
pub proof fn fit_content_wraps_content<T: SvgTangibleObject>(layer: T, padding: u32, child: Size)
    requires
        layer.size_option() == SizeOption::FitContent(padding),
    ensures
        resolved_size(layer.size_option(), child.extent()) == (
            child.0 + 2 * padding,
            child.1 + 2 * padding,
        ),
{
}

/// A layer of absolute size resolves to that size whatever its content.
pub proof fn absolute_size_ignores_content<T: SvgTangibleObject>(
    layer: T,
    width: u32,
    height: u32,
    child: Size,
    other_child: Size,
)
    requires
        layer.size_option() == SizeOption::Absolute(width, height),
    ensures
        resolved_size(layer.size_option(), child.extent()) == (width as int, height as int),
        resolved_size(layer.size_option(), child.extent()) == resolved_size(
            layer.size_option(),
            other_child.extent(),
        ),
{
}

/// A centered layer that is no larger than its container is placed at half
/// the difference on each axis, rounded down.
pub proof fn centered_layer_sits_halfway<T: SvgTangibleObject>(
    layer: T,
    container: Size,
    own: Size,
)
    requires
        layer.position_option() == PositionOption::Center,
        own.0 <= container.0,
        own.1 <= container.1,
    ensures
        ({
            let position = resolved_position(
                layer.position_option(),
                container.extent(),
                own.extent(),
            );
            &&& position == ((container.0 - own.0) / 2, (container.1 - own.1) / 2)
            &&& 2 * position.0 <= container.0 - own.0 < 2 * position.0 + 2
            &&& 2 * position.1 <= container.1 - own.1 < 2 * position.1 + 2
        }),
{
}

/// A layer of absolute position is placed there whatever the sizes.
pub proof fn absolute_position_ignores_sizes<T: SvgTangibleObject>(
    layer: T,
    x: u32,
    y: u32,
    container: Size,
    own: Size,
)
    requires
        layer.position_option() == PositionOption::Absolute(x, y),
    ensures
        resolved_position(layer.position_option(), container.extent(), own.extent()) == (
            x as int,
            y as int,
        ),
{
}

/// The bottommost layer, which has no container, is placed at the origin
/// unless it asks for an absolute position.
pub proof fn bottom_layer_sits_at_origin(layers: Seq<Layer>)
    requires
        layers.len() > 0,
        layers[0].position_option() == PositionOption::Center,
        fits_pixels(size_at(layers, 0)),
    ensures
        position_at(layers, 0) == (0int, 0int),
{
}

/// The document of an empty stack is a root of 0 by 0 pixels without
/// children.
pub proof fn empty_stack_document()
    ensures
        document_of(Seq::<Layer>::empty()) == root_of(Size(0, 0)),
{
    let layers = Seq::<Layer>::empty();
    assert(document_of(layers).children =~= Seq::<Markup>::empty());
}

/// No layer hands definitions up to the document: each keeps its own
/// inside its frame. So the children of a document are its layers'
/// elements, one for each layer and in the layers' order, and nothing else.
pub proof fn document_holds_one_element_for_each_layer(layers: Seq<Layer>)
    ensures
        document_of(layers).children == Seq::new(layers.len(), |i: int| element_at(layers, i)),
{
    lemma_nothing_handed_up(layers, layers.len() as int);
    assert(document_of(layers).children =~= Seq::new(
        layers.len(),
        |i: int| element_at(layers, i),
    ));
}

/// None of the first `n` layers hands definitions up.
proof fn lemma_nothing_handed_up(layers: Seq<Layer>, n: int)
    ensures
        shared_definitions(layers, n) == Seq::<Markup>::empty(),
    decreases n,
{
    if n > 0 {
        lemma_nothing_handed_up(layers, n - 1);
    }
}

/// The size of layer `i` depends on the layers from `i` up alone: what
/// lies beneath a layer does not change its size.
pub proof fn size_ignores_layers_beneath(layers: Seq<Layer>, beneath: Seq<Layer>, i: int)
    requires
        0 <= i <= layers.len(),
    ensures
        size_at(beneath + layers, beneath.len() + i) == size_at(layers, i),
    decreases layers.len() - i,
{
    if i < layers.len() {
        size_ignores_layers_beneath(layers, beneath, i + 1);
        assert((beneath + layers)[beneath.len() + i] == layers[i]);
    }
}

/// A stack of one shape needs no layout: the document has the shape's own
/// size, and holds the shape at the origin unless it asks for an absolute
/// position.
pub proof fn single_shape_document(layer: Layer, width: u32, height: u32)
    requires
        layer matches Layer::BasicShape(shape) && shape.size == SizeOption::Absolute(width, height)
            && shape.position == PositionOption::Center,
    ensures
        document_of(seq![layer]) == (Markup {
            children: seq![
                layer->BasicShape_0@.markup(Size(width, height), Position(0, 0)),
            ],
            ..root_of(Size(width, height))
        }),
{
    let layers = seq![layer];
    document_holds_one_element_for_each_layer(layers);
    assert(size_at(layers, 1) == (0int, 0int));
    assert(size_at(layers, 0) == (width as int, height as int));
    assert(document_of(layers).children =~= seq![
        layer->BasicShape_0@.markup(Size(width, height), Position(0, 0)),
    ]);
}

/// The document of a stack depends on nothing but what its layers hold.
pub proof fn stacks_that_hold_the_same_render_the_same(a: Seq<Layer>, b: Seq<Layer>)
    requires
        a.len() == b.len(),
        forall|i: int| 0 <= i < a.len() ==> (#[trigger] a[i])@ == b[i]@,
    ensures
        layout_fits(a) == layout_fits(b),
        all_render(a) == all_render(b),
        document_of(a) == document_of(b),
{
    lemma_same_sizes(a, b, 0);
    assert forall|i: int| 0 <= i < a.len() implies sized_at(a, i) == sized_at(b, i)
        && rendered_at(a, i) == rendered_at(b, i) && element_at(a, i) == element_at(b, i) by {
        assert(a[i]@ == b[i]@);
        crate::layers::layers_that_hold_the_same_render_the_same(a[i], b[i]);
        lemma_same_sizes(a, b, i);
        if i > 0 {
            lemma_same_sizes(a, b, i - 1);
        }
    }
    assert(layout_fits(a) == layout_fits(b)) by {
        if layout_fits(a) {
            assert forall|i: int| 0 <= i < b.len() implies sized_at(b, i) by {
                assert(sized_at(a, i));
            }
        }
        if layout_fits(b) {
            assert forall|i: int| 0 <= i < a.len() implies sized_at(a, i) by {
                assert(sized_at(b, i));
            }
        }
    }
    assert(all_render(a) == all_render(b)) by {
        if all_render(a) {
            assert forall|i: int| 0 <= i < b.len() implies rendered_at(b, i) by {
                assert(rendered_at(a, i));
            }
        }
        if all_render(b) {
            assert forall|i: int| 0 <= i < a.len() implies rendered_at(a, i) by {
                assert(rendered_at(b, i));
            }
        }
    }
    document_holds_one_element_for_each_layer(a);
    document_holds_one_element_for_each_layer(b);
    assert(document_of(a).children =~= document_of(b).children);
}

/// Stacks whose layers hold the same resolve to the same sizes.
proof fn lemma_same_sizes(a: Seq<Layer>, b: Seq<Layer>, i: int)
    requires
        a.len() == b.len(),
        forall|i: int| 0 <= i < a.len() ==> (#[trigger] a[i])@ == b[i]@,
    ensures
        size_at(a, i) == size_at(b, i),
    decreases a.len() - i,
{
    if 0 <= i < a.len() {
        lemma_same_sizes(a, b, i + 1);
        assert(a[i]@ == b[i]@);
        crate::layers::layers_that_hold_the_same_render_the_same(a[i], b[i]);
    }
}

/// A background wraps the layer above it with a margin of 100 pixels on
/// every side.
pub proof fn background_wraps_the_layer_above(layers: Seq<Layer>, i: int)
    requires
        0 <= i < layers.len(),
        layers[i] is Background,
    ensures
        size_at(layers, i) == (size_at(layers, i + 1).0 + 200, size_at(layers, i + 1).1 + 200),
{
}

/// An image that has a size keeps it whatever lies above it: its own
/// extent and its padding on every side.
pub proof fn image_keeps_its_size(layers: Seq<Layer>, i: int)
    requires
        0 <= i < layers.len(),
        layers[i] is Image,
        layers[i].sizable(),
    ensures
        size_at(layers, i) == layers[i]->Image_0@.outer(),
{
}

} // verus!
