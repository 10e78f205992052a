use hello::aggregator::{NewsArticle, Summary, Tweet};
use hello::traits::{outline, Animal, Dog, Human, Pilot, Point, VecWrapper, Wizard};

type Kilometers = i32;

#[test]
fn operator_overloading() {
    assert_eq!(Point { x: 1, y: 0 } + Point { x: 2, y: 3 }, Point { x: 3, y: 3 });
}

#[test]
fn methods_with_the_same_name() {
    let person = Human;
    assert_eq!(Pilot::fly(&person), "This is your captain speaking.");
    assert_eq!(Wizard::fly(&person), "Up!");
    assert_eq!(person.fly(), "*waving arms furiously*");

    println!("A baby dog is called a {}", Dog::baby_name());
    assert_eq!(Dog::baby_name(), "Sofie");
    assert_eq!(<Dog as Animal>::baby_name(), "puppy");
}

#[test]
fn wrapper() {
    let w = VecWrapper(vec![String::from("hello"), String::from("sofie")]);
    println!("w = {}", w.to_string());
    assert_eq!(w.to_string(), "[hello, sofie]");
    assert_eq!(VecWrapper(vec![]).to_string(), "[]");
    assert_eq!(VecWrapper(vec![String::from("one")]).to_string(), "[one]");
}

#[test]
fn alias() {
    let x: i32 = 5;
    let y: Kilometers = 5;

    println!("x + y = {}", x + y);
    assert_eq!(x, y);

    let lengthy_type: Box<dyn Fn() + Send + 'static> = Box::new(|| println!("hi sofie!"));
    lengthy_type();
}

#[test]
fn never_type() {}

#[test]
fn dynamically_sized_types() {
    let s1: &str = "hello sofia!";
    let s2: &str = "how's it going?";
    assert_eq!(s1.len(), 12);
    assert_eq!(s2.len(), 15);
}

#[test]
fn point_text_and_outline() {
    let p = Point { x: 1, y: -3 };
    assert_eq!(p.to_string(), "(1, -3)");
    assert_eq!(Point { x: i32::MIN, y: 0 }.to_string(), "(-2147483648, 0)");
    let lines = outline(&p.to_string());
    assert_eq!(
        lines,
        vec!["***********", "*         *", "* (1, -3) *", "*         *", "***********"]
    );
}

#[test]
fn summaries() {
    let tweet = Tweet {
        username: String::from("horse_ebooks"),
        content: String::from("of course, as you probably already know, people"),
        reply: false,
        retweet: false,
    };
    assert_eq!(tweet.summarize(), "horse_ebooks: of course, as you probably already know, people");
    assert_eq!(tweet.summarize_author(), "@horse_ebooks");

    let article = NewsArticle {
        headline: String::from("Penguins win the Stanley Cup Championship!"),
        location: String::from("Pittsburgh, PA, USA"),
        author: String::from("Iceburgh"),
        content: String::from("The Pittsburgh Penguins once again are the hocket team in the NHL."),
    };
    assert_eq!(
        article.summarize(),
        "Penguins win the Stanley Cup Championship!, by Iceburgh (Pittsburgh, PA, USA)"
    );
    assert_eq!(article.summarize_author(), "(Read more from Iceburgh...)");
}
