use portfolio::content::{content_for, ContentBlock};
use portfolio::nav::NavigationState;
use portfolio::page::Page;
use portfolio::render::{render, render_card, Inline, Node};

#[test]
fn initial_load_renders_about_with_load2() {
    let state = NavigationState::new();
    let rendering = render(&state);
    assert_eq!(rendering.animation_name, "load2");
    assert_eq!(rendering.background, "Earth-From-Space-HD-Backgrounds.jpg");
    assert!(rendering.body.is_empty());
}

#[test]
fn clicking_education_from_about_switches_and_animates() {
    let mut state = NavigationState::new();
    state.navigate_to(Page::Education);
    assert_eq!(state.current, Page::Education);
    assert!(state.animation_toggle);

    let rendering = render(&state);
    assert_eq!(rendering.animation_name, "load");
    assert_eq!(
        rendering.background,
        "Memorial_Union_at_Oregon_State_University.jpg"
    );

    // Two cards separated by a line break.
    assert_eq!(rendering.body.len(), 3);
    assert!(matches!(rendering.body[1], Node::Break));
    match &rendering.body[0] {
        Node::Linked(href, items) => {
            assert_eq!(*href, "https://oregonstate.edu");
            assert_eq!(
                items,
                &vec![
                    Inline::Title("BS Mechanical Engineering"),
                    Inline::Subtitle("Oregon State University"),
                ]
            );
        }
        other => panic!("degree card should be a link, got {:?}", other),
    }
    match &rendering.body[2] {
        Node::Linked(href, items) => {
            assert_eq!(*href, "https://www.global-formula-racing.com");
            assert_eq!(items.len(), 3);
            assert_eq!(items[0], Inline::Title("Capstone Senior Design"));
            assert_eq!(items[1], Inline::Subtitle("Global Formula Racing"));
            assert!(matches!(items[2], Inline::Paragraph(_)));
        }
        other => panic!("capstone card should be a link, got {:?}", other),
    }
}

#[test]
fn clicking_education_again_changes_nothing() {
    let mut state = NavigationState::new();
    state.navigate_to(Page::Education);
    let before = state;
    let rendered_before = render(&state);

    state.navigate_to(Page::Education);
    assert_eq!(state, before);
    let rendered_after = render(&state);
    assert_eq!(rendered_after, rendered_before);
    // In particular the animation name is unchanged, so no retrigger.
    assert_eq!(rendered_after.animation_name, "load");
}

#[test]
fn rendering_is_a_pure_function_of_the_state() {
    let pages = [
        Page::About,
        Page::Education,
        Page::Certifications,
        Page::Experience,
        Page::Projects,
        Page::Contributions,
    ];
    for page in pages {
        for toggle in [false, true] {
            let state = NavigationState { current: page, animation_toggle: toggle };
            assert_eq!(render(&state), render(&state));
        }
    }
}

#[test]
fn toggle_selects_between_the_two_animation_names() {
    let on = NavigationState { current: Page::Projects, animation_toggle: true };
    let off = NavigationState { current: Page::Projects, animation_toggle: false };
    assert_eq!(render(&on).animation_name, "load");
    assert_eq!(render(&off).animation_name, "load2");
    // Only the animation name differs between the two renderings.
    assert_eq!(render(&on).background, render(&off).background);
    assert_eq!(render(&on).body, render(&off).body);
}

#[test]
fn bare_card_renders_only_its_children() {
    let block = ContentBlock {
        href: None,
        title: None,
        subtitle: None,
        paragraphs: vec!["first line", "second line"],
    };
    let node = render_card(&block);
    assert_eq!(
        node,
        Node::Plain(vec![
            Inline::Paragraph("first line"),
            Inline::Paragraph("second line"),
        ])
    );
}

#[test]
fn linked_card_wraps_title_subtitle_then_children() {
    let block = ContentBlock {
        href: Some("https://example.com"),
        title: Some("a title"),
        subtitle: Some("a subtitle"),
        paragraphs: vec!["some text"],
    };
    let node = render_card(&block);
    assert_eq!(
        node,
        Node::Linked(
            "https://example.com",
            vec![
                Inline::Title("a title"),
                Inline::Subtitle("a subtitle"),
                Inline::Paragraph("some text"),
            ]
        )
    );
}

#[test]
fn every_page_renders_one_card_per_block_with_breaks_between() {
    let pages = [
        Page::About,
        Page::Education,
        Page::Certifications,
        Page::Experience,
        Page::Projects,
        Page::Contributions,
    ];
    for page in pages {
        let content = content_for(page);
        let state = NavigationState { current: page, animation_toggle: false };
        let rendering = render(&state);
        let blocks = content.blocks.len();
        let expected = if blocks == 0 { 0 } else { 2 * blocks - 1 };
        assert_eq!(rendering.body.len(), expected);
        for (i, node) in rendering.body.iter().enumerate() {
            if i % 2 == 0 {
                assert!(!matches!(node, Node::Break));
            } else {
                assert!(matches!(node, Node::Break));
            }
        }
        assert_eq!(rendering.background, content.background);
    }
}

#[test]
fn experience_cards_render_unlinked() {
    let state = NavigationState { current: Page::Experience, animation_toggle: false };
    let rendering = render(&state);
    assert_eq!(rendering.body.len(), 3);
    match &rendering.body[0] {
        Node::Plain(items) => {
            assert_eq!(items[0], Inline::Title("Manufacturing Technician"));
            assert_eq!(items[1], Inline::Subtitle("Retronix Semiconductor"));
            assert!(matches!(items[2], Inline::Paragraph(_)));
            assert_eq!(items.len(), 3);
        }
        other => panic!("card without href should be plain, got {:?}", other),
    }
}

#[test]
fn project_card_without_subtitle_skips_the_line() {
    let state = NavigationState { current: Page::Projects, animation_toggle: false };
    let rendering = render(&state);
    match &rendering.body[0] {
        Node::Linked(href, items) => {
            assert_eq!(
                *href,
                "https://www.github.com/charles-r-earp/charles-r-earp.github.io"
            );
            assert_eq!(
                items,
                &vec![
                    Inline::Title("Portfolio Website"),
                    Inline::Paragraph("This website, built with Dioxus."),
                ]
            );
        }
        other => panic!("site card should be a link, got {:?}", other),
    }
}
