#![allow(unused_variables, dead_code, irrefutable_let_patterns)]

#[test]
fn match_expressions() {
    let x = Some(1);

    let y = match x {
        None => None,
        Some(i) => Some(i + 1),
    };
    assert_eq!(y, Some(2));
}

#[test]
fn if_expressions() {
    let favorite_color: Option<&str> = None;
    let is_tuesday = false;
    let age: Result<u8, _> = "34".parse();

    let background = if let Some(color) = favorite_color {
        println!("Using your favorite color, {color}, as the background");
        "favorite"
    } else if is_tuesday {
        println!("Tuesday is green day!");
        "green"
    } else if let Ok(age) = age {
        if age > 30 {
            println!("Using purple as the background color");
            "purple"
        } else {
            println!("Using orange as the background color");
            "orange"
        }
    } else {
        println!("Using blue as the background color");
        "blue"
    };
    assert_eq!(background, "purple");
}

#[test]
fn while_loop_expressions() {
    let mut stack = Vec::new();

    stack.push(1);
    stack.push(2);
    stack.push(3);

    let mut popped = Vec::new();
    while let Some(top) = stack.pop() {
        println!("{}", top);
        popped.push(top);
    }
    assert_eq!(popped, vec![3, 2, 1]);
}

#[test]
fn for_loop_expressions() {
    let v = vec!['a', 'b', 'c'];

    for (index, value) in v.iter().enumerate() {
        println!("{} is at index {}", value, index);
    }
}

#[test]
fn let_statements() {
    let (x, y, z) = (1, 2, 3);
    assert_eq!((x, y, z), (1, 2, 3));
}

fn print_coordinates(&(x, y): &(i32, i32)) {
    println!("Current location: ({}, {})", x, y);
}

#[test]
fn function_parameters() {
    let point = (3, 5);
    print_coordinates(&point);
}

fn print_rgb<F>(f: F)
where
    F: Fn(i32, i32, i32),
{
    f(123, 23, 231);
}

#[test]
fn closure_parameters() {
    let closure = |r, g, b| {
        println!("the RGB colors are: ({}, {}, {})", r, g, b);
    };

    print_rgb(closure);
}

#[test]
fn irrefutable_patterns() {
    let x = 5;

    if let x = 5 {
        println!("{}", x);
    };

    match 1 {
        g => println!("{}", g),
    }
}

#[test]
fn refutable_patterns() {
    let a_value = Some(1);

    if let Some(x) = a_value {
        println!("{}", x);
    }

    let some_option_value: Option<i32> = None;

    if let Some(x) = some_option_value {
        println!("{}", x);
    }
}

#[test]
fn matching_literals() {
    let x = 1;

    let word = match x {
        1 => "one",
        2 => "two",
        3 => "three",
        _ => "anything",
    };
    println!("{}", word);
    assert_eq!(word, "one");

    let x = Some(5);
    let y = 10;

    match x {
        Some(50) => println!("Got 50"),
        Some(y) => println!("Matched, y = {y}"),
        _ => println!("Default case, x = {:?}", x),
    }
    assert_eq!(y, 10);
}

#[test]
fn matching_multiple_patterns() {
    let x = 1;

    let word = match x {
        1 | 2 => "one or two",
        3 => "three",
        _ => "anything",
    };
    assert_eq!(word, "one or two");
}

#[test]
fn matching_ranges_of_values() {
    let x = 5;

    let a = match x {
        1..=5 => "one through five",
        _ => "something else",
    };
    assert_eq!(a, "one through five");

    let y = 'c';

    let b = match y {
        'a'..='j' => "early ASCII letter",
        'k'..='z' => "late ASCII letter",
        _ => "something else",
    };
    assert_eq!(b, "early ASCII letter");
}

struct Point2D {
    y: i32,
    x: i32,
}

#[test]
fn destructuring_structs() {
    let p = Point2D { x: 0, y: 7 };

    let Point2D { x: a, y: b } = p;
    assert_eq!(0, a);
    assert_eq!(7, b);

    let Point2D { x, y } = p;
    assert_eq!(0, x);
    assert_eq!(7, y);

    match p {
        Point2D { x, y: 0 } => println!("On the x axis at {}", x),
        Point2D { x: 0, y } => println!("On the y axis at {}", y),
        Point2D { x, y } => println!("On neither axis: ({}, {})", x, y),
    }
}

enum Color {
    Rgb(i32, i32, i32),
    Hsv(i32, i32, i32),
}

enum Message {
    Quit,
    Move { x: i32, y: i32 },
    Write(String),
    ChangeColor(Color),
    Hello { id: i32 },
}

#[test]
fn destructuring_enums() {
    let msg = Message::ChangeColor(Color::Hsv(0, 160, 255));

    match msg {
        Message::ChangeColor(Color::Rgb(r, g, b)) => {
            println!("Change the color to red {}, green {}, and blue {}", r, g, b)
        }
        Message::ChangeColor(Color::Hsv(h, s, v)) => {
            println!("Change the color to hue {}, saturation {}, and value {}", h, s, v);
            assert_eq!((h, s, v), (0, 160, 255));
        }
        _ => (),
    }
}

#[test]
fn destructuring_complex_nested_values() {
    if let ((feet, inches), Point2D { x: x1, y: y1 }, Point2D { x: x2, y: y2 }, Message::Write(t)) = (
        (3, 10),
        Point2D { x: 3, y: -10 },
        Point2D { x: -6, y: 12 },
        Message::Write("text".to_string()),
    ) {
        assert_eq!((feet, inches, x1, y1, x2, y2), (3, 10, 3, -10, -6, 12));
        assert_eq!(t, "text");
    };
}

fn foo(_: i32, y: i32) {
    println!("This code only uses the y parameter: {}", y);
}

#[test]
fn ignoring_entire_values() {
    foo(3, 4);
}

#[test]
fn ignoring_parts_of_a_value() {
    let mut setting_value = Some(5);
    let new_setting_value = Some(10);

    match (setting_value, new_setting_value) {
        (Some(_), Some(_)) => {
            println!("Can't overwrite an existing customized value");
        }
        _ => {
            setting_value = new_setting_value;
        }
    }

    println!("setting is {:?}", setting_value);
    assert_eq!(setting_value, Some(5));

    let numbers = (2, 4, 8, 16, 32);

    match numbers {
        (first, _, third, _, fifth) => {
            println!("Some numbers: {first}, {third}, {fifth}")
        }
    }

    let _x = 5;
    let y = 10;

    let s = Some(String::from("Hello!"));

    if let Some(_s) = s {
        println!("found a string");
    }

    let s = Some(String::from("Hello!"));

    if let Some(_) = s {
        println!("found a string");
    }

    println!("{:?}", s);
}

struct Point3D {
    x: i32,
    y: i32,
    z: i32,
}

#[test]
fn ignoring_remaining_parts_of_a_value() {
    let origin = Point3D { x: 0, y: 0, z: 0 };

    match origin {
        Point3D { x, .. } => println!("x is {}", x),
    }

    let numbers = (2, 4, 8, 16, 32);

    match numbers {
        (first, .., last) => {
            println!("Some numbers: {first}, {last}");
            assert_eq!((first, last), (2, 32));
        }
    }
}

#[test]
fn match_guards() {
    let num = Some(4);

    match num {
        Some(x) if x % 2 == 0 => println!("The number {} is even", x),
        Some(x) => println!("The number {} is odd", x),
        None => (),
    }

    let x = Some(5);
    let y = 10;

    match x {
        Some(50) => println!("Got 50"),
        Some(n) if n == y => println!("Matched, n = {n}"),
        _ => println!("Default case, x = {:?}", x),
    }

    println!("at the end: x = {:?}, y = {y}", x);

    let x = 4;
    let y = false;

    let answer = match x {
        4 | 5 | 6 if y => "yes",
        _ => "no",
    };
    assert_eq!(answer, "no");
}

#[test]
fn field_value_bindings() {
    let msg = Message::Hello { id: 5 };

    match msg {
        Message::Hello { id: id_variable @ 3..=7 } => {
            println!("Found an id in range: {}", id_variable);
            assert_eq!(id_variable, 5);
        }
        Message::Hello { id: 10..=12 } => {
            println!("Found an id in another range")
        }
        Message::Hello { id } => println!("Found some other id: {}", id),
        _ => (),
    }

    println!("hello world");
}
