use rusty_webex::adaptive_card::{
    Action, ActionStyle, AdaptiveCard, CardElement, ChoiceInputStyle, Choice, Color, Column,
    ContainerStyle, Fact, FontType, Size, Spacing, VerticalContentAlignment, Weight,
};
use rusty_webex::types::{
    Attachment, Message, MessageActivity, MessageOut, RoomType, SpaceActivity,
};

#[test]
fn message_activity_from_verb() {
    assert_eq!(MessageActivity::try_from("post"), Ok(MessageActivity::Posted));
    assert_eq!(MessageActivity::try_from("share"), Ok(MessageActivity::Shared));
    assert_eq!(MessageActivity::try_from("acknowledge"), Ok(MessageActivity::Acknowledged));
    assert_eq!(MessageActivity::try_from("delete"), Ok(MessageActivity::Deleted));
    assert_eq!(MessageActivity::try_from("Post"), Err(()));
    assert_eq!(MessageActivity::try_from(""), Err(()));
}

#[test]
fn space_activity_from_verb() {
    assert_eq!(SpaceActivity::try_from("create"), Ok(SpaceActivity::Created));
    assert_eq!(SpaceActivity::try_from("add"), Ok(SpaceActivity::Joined));
    assert_eq!(SpaceActivity::try_from("leave"), Ok(SpaceActivity::Left));
    assert_eq!(SpaceActivity::try_from("lock"), Ok(SpaceActivity::Locked));
    assert_eq!(SpaceActivity::try_from("unlock"), Ok(SpaceActivity::Unlocked));
    assert_eq!(SpaceActivity::try_from("update"), Ok(SpaceActivity::Changed));
    assert_eq!(SpaceActivity::try_from("assign"), Ok(SpaceActivity::Changed));
    assert_eq!(SpaceActivity::try_from("unassign"), Ok(SpaceActivity::Changed));
    assert_eq!(SpaceActivity::try_from("schedule"), Ok(SpaceActivity::MeetingScheduled));
    assert_eq!(SpaceActivity::try_from("assignModerator"), Ok(SpaceActivity::ModeratorAssigned));
    assert_eq!(SpaceActivity::try_from("unassignModerator"), Ok(SpaceActivity::ModeratorUnassigned));
    assert_eq!(SpaceActivity::try_from("post"), Err(()));
}

#[test]
fn created_messages_are_posted_or_shared() {
    assert!(MessageActivity::Posted.is_created());
    assert!(MessageActivity::Shared.is_created());
    assert!(!MessageActivity::Acknowledged.is_created());
    assert!(!MessageActivity::Deleted.is_created());
}

#[test]
fn outgoing_message_repeats_the_message() {
    let message = Message {
        id: Some("id".to_string()),
        room_id: Some("room".to_string()),
        room_type: Some(RoomType::Group),
        to_person_id: Some("person".to_string()),
        to_person_email: Some("a@b.c".to_string()),
        text: Some("text".to_string()),
        markdown: Some("**text**".to_string()),
        html: Some("<b>text</b>".to_string()),
        files: Some(vec!["f".to_string()]),
        person_id: Some("author".to_string()),
        person_email: None,
        mentioned_people: None,
        mentioned_groups: None,
        attachments: Some(vec![Attachment {
            content_type: "application/vnd.microsoft.card.adaptive".to_string(),
            content: AdaptiveCard::new(),
        }]),
        created: Some("now".to_string()),
        updated: None,
        parent_id: Some("parent".to_string()),
    };
    let out = MessageOut::from(message);
    assert_eq!(
        out,
        MessageOut {
            parent_id: Some("parent".to_string()),
            room_id: Some("room".to_string()),
            to_person_id: Some("person".to_string()),
            to_person_email: Some("a@b.c".to_string()),
            text: Some("text".to_string()),
            markdown: Some("**text**".to_string()),
            files: Some(vec!["f".to_string()]),
            attachments: Some(vec![Attachment {
                content_type: "application/vnd.microsoft.card.adaptive".to_string(),
                content: AdaptiveCard::new(),
            }]),
        }
    );
    assert_eq!(MessageOut::from(Message::default()), MessageOut::default());
    assert_eq!(RoomType::default(), RoomType::Direct);
}

#[test]
fn action_style_names() {
    assert_eq!(ActionStyle::Default.as_str(), "Default");
    assert_eq!(ActionStyle::Positive.as_str(), "Positive");
    assert_eq!(ActionStyle::Destructive.as_str(), "Destructive");
}

#[test]
fn new_card_has_the_mandatory_defaults() {
    let card = AdaptiveCard::new();
    assert_eq!(card.card_type, "AdaptiveCard");
    assert_eq!(card.version, "1.3");
    assert_eq!(card.schema, "http://adaptivecards.io/schemas/adaptive-card.json");
    assert_eq!(card.body, None);
    assert_eq!(card.actions, None);
    assert_eq!(card.select_action, None);
    assert_eq!(card.fallback_text, None);
    assert_eq!(card.min_height, None);
    assert_eq!(card.lang, None);
}

#[test]
fn card_collects_body_and_actions_in_order() {
    let card = AdaptiveCard::new()
        .add_body(CardElement::text_block("one"))
        .add_body(CardElement::text_block("two"))
        .add_action(Action::OpenUrl { url: "u".to_string(), title: None, style: None })
        .add_action(Action::Submit { data: None, title: Some("go".to_string()), style: None });
    assert_eq!(
        card.body,
        Some(vec![CardElement::text_block("one"), CardElement::text_block("two")])
    );
    assert_eq!(
        card.actions,
        Some(vec![
            Action::OpenUrl { url: "u".to_string(), title: None, style: None },
            Action::Submit { data: None, title: Some("go".to_string()), style: None },
        ])
    );
    assert_eq!(card.version, "1.3");
}

#[test]
fn text_block_setters() {
    let block = CardElement::text_block("hi")
        .set_weight(Weight::Bolder)
        .set_font(FontType::Monospace)
        .set_size(Size::Large)
        .set_color(Color::Good)
        .set_wrap(true)
        .set_subtle(false)
        .set_separator(true)
        .set_spacing(Spacing::Small);
    assert_eq!(
        block,
        CardElement::TextBlock {
            text: "hi".to_string(),
            wrap: Some(true),
            color: Some(Color::Good),
            horizontal_alignment: None,
            is_subtle: Some(false),
            max_lines: None,
            font_type: Some(FontType::Monospace),
            size: Some(Size::Large),
            weight: Some(Weight::Bolder),
            height: None,
            id: None,
            separator: Some(true),
            spacing: Some(Spacing::Small),
        }
    );
}

#[test]
fn setters_leave_other_elements_alone() {
    let block = CardElement::text_block("hi");
    let same = CardElement::text_block("hi")
        .set_container_style(ContainerStyle::Good)
        .set_vertical_alignment(VerticalContentAlignment::Top)
        .set_multiline(true)
        .set_style(ChoiceInputStyle::Compact)
        .set_title("t".to_string())
        .set_multiselect(true)
        .set_height("1px".to_string())
        .set_width("1px".to_string())
        .set_placeholder(Some("p".to_string()))
        .add_element(CardElement::fact_set())
        .add_column(Column::new())
        .add_key_value("k", "v")
        .add_action_to_set(Action::OpenUrl { url: "u".to_string(), title: None, style: None });
    assert_eq!(same, block);
    let container = CardElement::container().set_separator(true).set_spacing(Spacing::Large);
    assert_eq!(container, CardElement::container());
    let toggle = CardElement::input_toggle("t", true).set_spacing(Spacing::Large);
    assert_eq!(toggle, CardElement::input_toggle("t", true));
}

#[test]
fn container_collects_elements() {
    let container = CardElement::container()
        .add_element(CardElement::text_block("a"))
        .add_element(CardElement::image("http://i"))
        .set_container_style(ContainerStyle::Emphasis)
        .set_vertical_alignment(VerticalContentAlignment::Bottom);
    assert_eq!(
        container,
        CardElement::Container {
            items: vec![CardElement::text_block("a"), CardElement::image("http://i")],
            select_action: None,
            style: Some(ContainerStyle::Emphasis),
            vertical_content_alignment: Some(VerticalContentAlignment::Bottom),
            height: None,
            id: None,
            separator: None,
            spacing: None,
        }
    );
}

#[test]
fn inputs_are_built_with_their_values() {
    assert_eq!(
        CardElement::input_text("name", Some("Ann")).set_multiline(true).set_placeholder(Some("who".to_string())),
        CardElement::InputText {
            id: "name".to_string(),
            placeholder: Some("who".to_string()),
            is_multiline: Some(true),
            max_length: None,
            style: None,
            inline_action: None,
            value: Some("Ann".to_string()),
            height: None,
            separator: None,
            spacing: None,
        }
    );
    assert_eq!(
        CardElement::input_toggle("ok", false).set_title("Agree".to_string()).set_separator(false),
        CardElement::InputToggle {
            id: "ok".to_string(),
            value: Some("false".to_string()),
            value_off: None,
            value_on: None,
            height: None,
            separator: Some(false),
            spacing: None,
            title: Some("Agree".to_string()),
        }
    );
    assert_eq!(
        CardElement::input_toggle("ok", true),
        CardElement::InputToggle {
            id: "ok".to_string(),
            value: Some("true".to_string()),
            value_off: None,
            value_on: None,
            height: None,
            separator: None,
            spacing: None,
            title: None,
        }
    );
    assert_eq!(
        CardElement::input_choice_set("pick", None)
            .add_key_value("One", "1")
            .add_key_value("Two", "2")
            .set_style(ChoiceInputStyle::Expanded)
            .set_multiselect(true),
        CardElement::InputChoiceSet {
            choices: vec![
                Choice { title: "One".to_string(), value: "1".to_string() },
                Choice { title: "Two".to_string(), value: "2".to_string() },
            ],
            id: "pick".to_string(),
            is_multi_select: Some(true),
            style: Some(ChoiceInputStyle::Expanded),
            value: None,
            height: None,
            separator: None,
            spacing: None,
        }
    );
}

#[test]
fn sets_collect_their_members() {
    assert_eq!(
        CardElement::fact_set().add_key_value("k", "v"),
        CardElement::FactSet {
            facts: vec![Fact { title: "k".to_string(), value: "v".to_string() }],
            height: None,
            id: None,
            separator: None,
            spacing: None,
        }
    );
    let column = Column::new()
        .add_element(CardElement::text_block("c"))
        .set_separator(true)
        .set_vertical_alignment(VerticalContentAlignment::Center)
        .set_width("auto")
        .set_spacing(Spacing::Padding);
    assert_eq!(column.items, vec![CardElement::text_block("c")]);
    assert_eq!(column.separator, Some(true));
    assert_eq!(column.vertical_content_alignment, Some(VerticalContentAlignment::Center));
    assert_eq!(column.width, Some("auto".to_string()));
    assert_eq!(column.spacing, Some(Spacing::Padding));
    assert_eq!(column.select_action, None);
    let set = CardElement::column_set().add_column(Column::new()).add_column(Column::new().set_width("1"));
    match set {
        CardElement::ColumnSet { columns, select_action, id, separator, spacing } => {
            assert_eq!(columns, vec![Column::new(), Column::new().set_width("1")]);
            assert_eq!(select_action, None);
            assert_eq!(id, None);
            assert_eq!(separator, None);
            assert_eq!(spacing, None);
        }
        other => panic!("{:?}", other),
    }
    assert_eq!(
        CardElement::action_set()
            .add_action_to_set(Action::OpenUrl { url: "u".to_string(), title: None, style: None }),
        CardElement::ActionSet {
            actions: vec![Action::OpenUrl { url: "u".to_string(), title: None, style: None }],
            height: None,
        }
    );
    assert_eq!(
        CardElement::image("http://i").set_height("10px".to_string()).set_width("20px".to_string()),
        CardElement::Image {
            url: "http://i".to_string(),
            alt_text: None,
            background_color: None,
            width: Some("20px".to_string()),
            height: Some("10px".to_string()),
            horizontal_alignment: None,
            select_action: None,
            size: None,
            style: None,
            id: None,
            separator: None,
            spacing: None,
        }
    );
}

#[test]
fn setters_change_the_element_and_return_a_copy() {
    let mut block = CardElement::text_block("hi");
    let copy = block.set_wrap(true);
    assert_eq!(copy, block);
    assert_eq!(block, CardElement::text_block("hi").set_wrap(true));
    let later = block.set_color(Color::Accent);
    assert_ne!(copy, later);
    assert_eq!(later, block);

    let mut card = AdaptiveCard::new();
    let first = card.add_body(CardElement::text_block("one"));
    let second = card.add_body(CardElement::text_block("two"));
    assert_eq!(first.body, Some(vec![CardElement::text_block("one")]));
    assert_eq!(second, card);
    assert_eq!(
        card.body,
        Some(vec![CardElement::text_block("one"), CardElement::text_block("two")])
    );

    let mut column = Column::new();
    let copy = column.set_width("stretch");
    assert_eq!(copy, column);
    assert_eq!(column.width, Some("stretch".to_string()));
}

#[test]
fn copies_hold_the_same_content() {
    let mut data = std::collections::HashMap::new();
    data.insert("k".to_string(), "v".to_string());
    let inner = AdaptiveCard::new().add_body(CardElement::fact_set().add_key_value("a", "b"));
    let card = AdaptiveCard::new()
        .add_body(
            CardElement::container()
                .add_element(CardElement::text_block("t").set_wrap(true))
                .add_element(CardElement::column_set().add_column(
                    Column::new().add_element(CardElement::input_choice_set("c", Some("1")).add_key_value("One", "1")),
                ))
                .add_element(CardElement::action_set().add_action_to_set(Action::Submit {
                    data: Some(data),
                    title: Some("send".to_string()),
                    style: Some(ActionStyle::Positive),
                })),
        )
        .add_action(Action::ShowCard { card: inner, title: None, style: None });
    let copy = card.clone();
    assert_eq!(copy, card);
    let message = Message {
        text: Some("hello".to_string()),
        attachments: Some(vec![Attachment { content_type: "card".to_string(), content: card }]),
        ..Message::default()
    };
    assert_eq!(message.clone(), message);
    assert_eq!(MessageOut::from(message.clone()).attachments, message.attachments);
}
