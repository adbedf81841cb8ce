use shared_cells::draw::{draw1, draw2, Button, Draw, Screen, SelectBox};
use shared_cells::minigrep::Config;
use shared_cells::shapes::Rectangle;
use shared_cells::summary::{returns_summarizable, Pair, Summary, Weibo};
use shared_cells::visibility::{bar, foo, I};

#[test]
fn rectangle_measures() {
    let rect1 = Rectangle::new(30, 50);
    assert_eq!(rect1.area(), 1500);
    assert_eq!(rect1.width(), 30);
    assert_eq!(rect1.checked_area(), Some(1500));
    assert_eq!(Rectangle::new(u32::MAX, 2).checked_area(), None);
    assert_eq!(Rectangle::new(0, 9).area(), 0);
}

#[test]
fn rectangle_holds_strictly_smaller_ones() {
    let rect1 = Rectangle::new(30, 50);
    let rect2 = Rectangle::new(10, 40);
    let rect3 = Rectangle::new(60, 45);
    assert!(rect1.can_hold(&rect2));
    assert!(!rect1.can_hold(&rect3));
    assert!(!rect1.can_hold(&Rectangle::new(30, 10)));
    assert!(!rect1.can_hold(&Rectangle::new(10, 50)));
}

#[test]
fn config_takes_the_second_and_third_argument() {
    let args = vec![String::from("minigrep"), String::from("needle"), String::from("hay.txt")];
    let config = Config::build(&args).unwrap();
    assert_eq!(config.query, "needle");
    assert_eq!(config.file_path, "hay.txt");
    let more = vec![
        String::from("minigrep"),
        String::from("a"),
        String::from("b"),
        String::from("c"),
    ];
    assert_eq!(Config::build(&more).unwrap().file_path, "b");
}

#[test]
fn config_needs_three_arguments() {
    let args = vec![String::from("minigrep"), String::from("needle")];
    assert_eq!(Config::build(&args).err(), Some("not enough arguments"));
    assert_eq!(Config::build(&[]).err(), Some("not enough arguments"));
}

#[test]
fn public_functions_over_private_constants() {
    assert_eq!(I, 3);
    assert_eq!(bar(2), 14);
    assert_eq!(bar(-1), -7);
    assert_eq!(foo(2), 9);
    assert_eq!(foo(-7), 0);
}

#[test]
fn screen_draws_every_component_in_order() {
    let screen = Screen {
        components: vec![
            Box::new(SelectBox {
                width: 75,
                height: 10,
                options: vec![String::from("Yes"), String::from("Maybe"), String::from("No")],
            }),
            Box::new(Button { width: 50, height: 10, label: String::from("OK") }),
        ],
    };
    assert_eq!(screen.run(), vec![String::from("SelectBox"), String::from("Button")]);
    assert_eq!(Screen { components: vec![] }.run(), Vec::<String>::new());
}

#[test]
fn components_draw_themselves() {
    let button = Button { width: 1, height: 1, label: String::new() };
    assert_eq!(button.draw(), "Button");
    assert_eq!(draw2(&button), "Button");
    assert_eq!(draw1(Box::new(button)), "Button");
    let select = SelectBox { width: 1, height: 1, options: vec![] };
    assert_eq!(draw2(&select), "SelectBox");
}

#[test]
fn summary_names_the_author() {
    let weibo = Weibo { username: String::from("sunface"), content: String::from("...") };
    assert_eq!(weibo.summarize_author(), "@sunface");
    assert_eq!(weibo.summarize(), "(Read more from @sunface...)");
    assert_eq!(returns_summarizable().summarize(), "(Read more from @sunface...)");
}

#[test]
fn pair_keeps_both() {
    let p = Pair::new(1, 2);
    assert_eq!((p.x, p.y), (1, 2));
}
