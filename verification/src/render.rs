//! The pure rendering model: a navigation state is turned into an element
//! tree, a background asset and one of two animation names. Rendering is a
//! function of (current page, animation toggle) and of nothing else.

use vstd::prelude::*;
use crate::content::{
    BlockModel, ContentBlock, PageContent, background_for, blocks_for, content_for,
};
use crate::nav::NavigationState;
use crate::page::Page;

verus! {

/// Animation name used when the toggle is on.
pub const ANIMATION_ON: &'static str = "load";

/// Animation name used when the toggle is off (also the initial load).
pub const ANIMATION_OFF: &'static str = "load2";

/// One line of a card: an emphasized title, an italic subtitle, or a
/// plain paragraph of text.
#[derive(Clone, Debug, PartialEq, Eq)]
pub enum Inline {
    Title(&'static str),
    Subtitle(&'static str),
    Paragraph(&'static str),
}

/// One element of a rendered page body: a card wrapped in a link, a plain
/// card, or a line break between cards.
#[derive(Clone, Debug, PartialEq, Eq)]
pub enum Node {
    Linked(&'static str, Vec<Inline>),
    Plain(Vec<Inline>),
    Break,
}

/// Mathematical model of an inline element.
#[verifier::ext_equal]
pub ghost enum InlineModel {
    Title(Seq<char>),
    Subtitle(Seq<char>),
    Paragraph(Seq<char>),
}

/// Mathematical model of a body element.
#[verifier::ext_equal]
pub ghost enum NodeModel {
    Linked(Seq<char>, Seq<InlineModel>),
    Plain(Seq<InlineModel>),
    Break,
}

impl View for Inline {
    type V = InlineModel;

    open spec fn view(&self) -> InlineModel {
        match self {
            Inline::Title(s) => InlineModel::Title(s@),
            Inline::Subtitle(s) => InlineModel::Subtitle(s@),
            Inline::Paragraph(s) => InlineModel::Paragraph(s@),
        }
    }
}

impl View for Node {
    type V = NodeModel;

    open spec fn view(&self) -> NodeModel {
        match self {
            Node::Linked(href, items) => NodeModel::Linked(
                href@,
                items@.map_values(|i: Inline| i@),
            ),
            Node::Plain(items) => NodeModel::Plain(items@.map_values(|i: Inline| i@)),
            Node::Break => NodeModel::Break,
        }
    }
}

/// The full output of one render: the animation name selected by the
/// toggle, the page's background asset, and the page body.
#[derive(Clone, Debug, PartialEq, Eq)]
pub struct Rendering {
    pub animation_name: &'static str,
    pub background: &'static str,
    pub body: Vec<Node>,
}

/// Mathematical model of a rendering.
#[verifier::ext_equal]
pub ghost struct RenderingModel {
    pub animation_name: Seq<char>,
    pub background: Seq<char>,
    pub body: Seq<NodeModel>,
}

impl View for Rendering {
    type V = RenderingModel;

    open spec fn view(&self) -> RenderingModel {
        RenderingModel {
            animation_name: self.animation_name@,
            background: self.background@,
            body: self.body@.map_values(|n: Node| n@),
        }
    }
}

/// The title line of a card, if the block has one.
pub open spec fn title_inlines(b: BlockModel) -> Seq<InlineModel> {
    match b.title {
        Some(t) => seq![InlineModel::Title(t)],
        None => Seq::empty(),
    }
}

/// The subtitle line of a card, if the block has one.
pub open spec fn subtitle_inlines(b: BlockModel) -> Seq<InlineModel> {
    match b.subtitle {
        Some(s) => seq![InlineModel::Subtitle(s)],
        None => Seq::empty(),
    }
}

/// The nested paragraphs of a card, rendered verbatim.
pub open spec fn paragraph_inlines(b: BlockModel) -> Seq<InlineModel> {
    b.paragraphs.map_values(|p: Seq<char>| InlineModel::Paragraph(p))
}

/// Everything inside a card, in order: title, subtitle, then the nested
/// content. An absent title or subtitle contributes nothing.
pub open spec fn inlines_of(b: BlockModel) -> Seq<InlineModel> {
    title_inlines(b) + subtitle_inlines(b) + paragraph_inlines(b)
}

/// A rendered card: a single clickable element wrapping its contents when
/// the block carries a link target, a plain container otherwise.
pub open spec fn card_of(b: BlockModel) -> NodeModel {
    match b.href {
        Some(h) => NodeModel::Linked(h, inlines_of(b)),
        None => NodeModel::Plain(inlines_of(b)),
    }
}

/// A rendered page body: one card per block, with a line break between
/// consecutive cards.
pub open spec fn body_of(blocks: Seq<BlockModel>) -> Seq<NodeModel>
    decreases blocks.len(),
{
    if blocks.len() == 0 {
        Seq::empty()
    } else if blocks.len() == 1 {
        seq![card_of(blocks[0])]
    } else {
        seq![card_of(blocks[0]), NodeModel::Break] + body_of(blocks.skip(1))
    }
}

/// Appending a block to a page appends its card, behind a line break
/// unless the page was empty.
pub proof fn lemma_body_of_push(blocks: Seq<BlockModel>, b: BlockModel)
    ensures
        blocks.len() == 0 ==> body_of(blocks.push(b)) =~= seq![card_of(b)],
        blocks.len() > 0 ==> body_of(blocks.push(b)) =~= body_of(blocks) + seq![
            NodeModel::Break,
            card_of(b),
        ],
    decreases blocks.len(),
{
    if blocks.len() == 0 {
        assert(blocks.push(b) =~= seq![b]);
    } else {
        assert(blocks.push(b).skip(1) =~= blocks.skip(1).push(b));
        lemma_body_of_push(blocks.skip(1), b);
    }
}

/// The animation name selected by the toggle.
pub open spec fn animation_variant(toggle: bool) -> Seq<char> {
    if toggle {
        ANIMATION_ON@
    } else {
        ANIMATION_OFF@
    }
}

/// What a render of the given state must produce.
pub open spec fn render_model(page: Page, toggle: bool) -> RenderingModel {
    RenderingModel {
        animation_name: animation_variant(toggle),
        background: background_for(page),
        body: body_of(blocks_for(page)),
    }
}

/// Renders one content block as a card.
pub fn render_card(block: &ContentBlock) -> (node: Node)
    ensures
        node@ == card_of(block@),
{
    let mut items: Vec<Inline> = Vec::new();
    if let Some(t) = block.title {
        items.push(Inline::Title(t));
    }
    if let Some(s) = block.subtitle {
        items.push(Inline::Subtitle(s));
    }
    proof {
        assert(items@.map_values(|i: Inline| i@) =~~= title_inlines(block@) + subtitle_inlines(
            block@,
        ));
    }
    let ghost head = items@.map_values(|i: Inline| i@);
    let mut i: usize = 0;
    while i < block.paragraphs.len()
        invariant
            i <= block.paragraphs.len(),
            items@.map_values(|it: Inline| it@) =~~= head + paragraph_inlines(block@).take(i as int),
        decreases block.paragraphs.len() - i,
    {
        let p = block.paragraphs[i];
        let ghost prev = items@;
        items.push(Inline::Paragraph(p));
        proof {
            assert(items@ == prev.push(Inline::Paragraph(p)));
            assert(items@.map_values(|it: Inline| it@) =~~= prev.map_values(
                |it: Inline| it@,
            ).push(InlineModel::Paragraph(p@)));
            assert(paragraph_inlines(block@)[i as int] == InlineModel::Paragraph(p@));
            assert(paragraph_inlines(block@).take(i as int + 1) =~~= paragraph_inlines(
                block@,
            ).take(i as int).push(InlineModel::Paragraph(p@)));
            assert(items@.map_values(|it: Inline| it@) =~~= head + paragraph_inlines(
                block@,
            ).take(i as int + 1));
        }
        i += 1;
    }
    proof {
        assert(paragraph_inlines(block@).take(i as int) =~~= paragraph_inlines(block@));
        assert(items@.map_values(|it: Inline| it@) =~~= inlines_of(block@));
    }
    match block.href {
        Some(h) => Node::Linked(h, items),
        None => Node::Plain(items),
    }
}

/// Renders a navigation state: looks the current page up in the registry
/// and composes the body, background and animation name. A pure function
/// of the state.
pub fn render(state: &NavigationState) -> (r: Rendering)
    ensures
        r@ == render_model(state.current, state.animation_toggle),
{
    let content = content_for(state.current);
    let PageContent { blocks, background } = content;
    let animation_name = if state.animation_toggle {
        ANIMATION_ON
    } else {
        ANIMATION_OFF
    };
    let ghost m = blocks@.map_values(|b: ContentBlock| b@);
    proof {
        assert(m =~~= blocks_for(state.current));
    }
    let mut body: Vec<Node> = Vec::new();
    let mut i: usize = 0;
    while i < blocks.len()
        invariant
            i <= blocks.len(),
            m == blocks@.map_values(|b: ContentBlock| b@),
            body@.map_values(|n: Node| n@) =~~= body_of(m.take(i as int)),
        decreases blocks.len() - i,
    {
        if i > 0 {
            body.push(Node::Break);
        }
        let node = render_card(&blocks[i]);
        body.push(node);
        proof {
            assert(m.take(i as int).push(m[i as int]) =~= m.take(i as int + 1));
            lemma_body_of_push(m.take(i as int), m[i as int]);
            assert(body@.map_values(|n: Node| n@) =~~= body_of(m.take(i as int + 1)));
        }
        i += 1;
    }
    proof {
        assert(m.take(i as int) =~= m);
    }
    let r = Rendering { animation_name, background, body };
    proof {
        assert(r@ =~~= render_model(state.current, state.animation_toggle));
    }
    r
}

/// Rendering is a pure function of the state: two renderings of the same
/// (page, toggle) pair are identical.
pub proof fn lemma_render_deterministic(a: Rendering, b: Rendering, page: Page, toggle: bool)
    requires
        a@ == render_model(page, toggle),
        b@ == render_model(page, toggle),
    ensures
        a@ == b@,
{
}

/// A card with no title, no subtitle and no link target renders only its
/// nested content, in a plain container with no wrapping link element.
pub proof fn lemma_card_bare(b: BlockModel)
    requires
        b.href is None,
        b.title is None,
        b.subtitle is None,
    ensures
        card_of(b) == NodeModel::Plain(paragraph_inlines(b)),
{
    assert(inlines_of(b) =~= paragraph_inlines(b));
}

/// A card with a link target renders as a single clickable element
/// wrapping title, subtitle and nested content, in that order.
pub proof fn lemma_card_linked(b: BlockModel)
    requires
        b.href is Some,
    ensures
        card_of(b) == NodeModel::Linked(
            b.href->Some_0,
            title_inlines(b) + subtitle_inlines(b) + paragraph_inlines(b),
        ),
{
}

} // verus!
