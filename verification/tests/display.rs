use wows_box::onebot11::message::{Face, Message, Text};
use wows_box::process::{guarantee_text, level_to_str, sort_reward_props, LootBoxListRewardProp};

#[test]
fn guarantee_labels() {
    assert_eq!(guarantee_text("zh-sg"), "（保底）");
    assert_eq!(guarantee_text("en"), "(Guaranteed)");
    assert_eq!(guarantee_text("anything"), "(Guaranteed)");
}

#[test]
fn level_labels() {
    assert_eq!(level_to_str(1), "I");
    assert_eq!(level_to_str(8), "VIII");
    assert_eq!(level_to_str(10), "X");
    assert_eq!(level_to_str(11), "⭐");
    assert_eq!(level_to_str(0), "");
    assert_eq!(level_to_str(12), "");
}

fn prop(rank: u32, tie: Option<u64>, text: &str) -> LootBoxListRewardProp {
    LootBoxListRewardProp {
        icons: vec![],
        text: text.to_owned(),
        amount: 1,
        precedence: (rank, tie),
        is_guaranteed: false,
    }
}

#[test]
fn reward_lines_sort_by_precedence() {
    let lines = vec![
        prop(9, None, "gold"),
        prop(1, Some(20), "ship b"),
        prop(18, None, "credits"),
        prop(1, Some(5), "ship a"),
        prop(0, Some(1), "box"),
    ];
    let sorted = sort_reward_props(lines);
    let order: Vec<&str> = sorted.iter().map(|p| p.text.as_str()).collect();
    assert_eq!(order, vec!["box", "ship a", "ship b", "gold", "credits"]);
}

#[test]
fn sorting_keeps_every_line() {
    let lines = vec![prop(2, None, "a"), prop(2, None, "b"), prop(1, None, "c")];
    let sorted = sort_reward_props(lines);
    assert_eq!(sorted.len(), 3);
    let mut texts: Vec<&str> = sorted.iter().map(|p| p.text.as_str()).collect();
    texts.sort();
    assert_eq!(texts, vec!["a", "b", "c"]);
}

#[test]
fn message_stringify_takes_text_segments() {
    let m = Message::Text { data: Text { text: "hello".to_owned() } };
    assert_eq!(m.stringify(), "hello");
    let f = Message::Face { data: Face { id: 3 } };
    assert_eq!(f.stringify(), "");
}

#[test]
fn messages_join_with_single_spaces() {
    let ms = vec![
        Message::Text { data: Text { text: "hello".to_owned() } },
        Message::Face { data: Face { id: 3 } },
        Message::Text { data: Text { text: "world".to_owned() } },
    ];
    assert_eq!(wows_box::onebot11::message::stringify(&ms), "hello  world");
    let one = vec![Message::Text { data: Text { text: "alone".to_owned() } }];
    assert_eq!(wows_box::onebot11::message::stringify(&one), "alone");
    let none: Vec<Message> = vec![];
    assert_eq!(wows_box::onebot11::message::stringify(&none), "");
}
