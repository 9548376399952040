use workbook::coins::value_in_cents;
use workbook::coins::Coin;
use workbook::coins::UsState;
use workbook::generics::largest;
use workbook::generics::largest2;
use workbook::generics::largest_char;
use workbook::generics::largest_i32;
use workbook::lifetimes::first_word;
use workbook::lifetimes::longest;
use workbook::loops::fibonacci;
use workbook::server::build_response;
use workbook::server::classify_request;
use workbook::server::response_parts;
use workbook::server::RequestKind;
use workbook::server::ThreadPool;
use workbook::slices::first_word_slice;
use workbook::summaries::Summary;
use std::rc::Rc;
use workbook::rc_list::List;
use workbook::advanced::{Meters, Millimeters, Point};

#[test]
fn coin_values_match_their_names() {
    assert_eq!(1, value_in_cents(Coin::Penny));
    assert_eq!(5, value_in_cents(Coin::Nickel));
    assert_eq!(10, value_in_cents(Coin::Dime));
    assert_eq!(25, value_in_cents(Coin::Quarter(UsState::Alaska)));
    assert_eq!(25, value_in_cents(Coin::Quarter(UsState::Alabama)));
}

#[test]
fn option_plus_one_keeps_none() {
    assert_eq!(Some(6), workbook::coins::plus_one(Some(5)));
    assert_eq!(None, workbook::coins::plus_one(None));
}

#[test]
fn fibonacci_known_values() {
    assert_eq!(0, fibonacci(0));
    assert_eq!(1, fibonacci(1));
    assert_eq!(1, fibonacci(2));
    assert_eq!(55, fibonacci(10));
    assert_eq!(332825110087067562321196029789634457848, fibonacci(186));
}

#[test]
fn largest_finds_the_maximum() {
    let number_list = vec![34, 50, 25, 100, 65];
    assert_eq!(100, largest_i32(&number_list));
    assert_eq!(100, largest(&number_list));
    assert_eq!(&100, largest2(&number_list));

    let char_list = vec!['y', 'm', 'a', 'q'];
    assert_eq!('y', largest_char(&char_list));
    assert_eq!('y', largest(&char_list));
}

#[test]
fn longest_picks_by_byte_length() {
    assert_eq!("abcd", longest("abcd", "xyz"));
    assert_eq!("xyzw", longest("abc", "xyzw"));
    assert_eq!("xyz", longest("abc", "xyz"));
}

#[test]
fn first_word_stops_at_the_first_space() {
    assert_eq!("hello", first_word("hello world"));
    assert_eq!("hello", first_word("hello"));
    assert_eq!("", first_word(" leading"));
    assert_eq!("hello", first_word_slice("hello world"));
    assert_eq!(5, workbook::slices::first_word(&String::from("hello world")));
    assert_eq!(3, workbook::slices::first_word(&String::from("abc")));
}

#[test]
fn requests_are_classified_by_their_first_line() {
    assert_eq!(
        RequestKind::Root,
        classify_request("GET / HTTP/1.1\r\nHost: x".as_bytes())
    );
    assert_eq!(
        RequestKind::Sleep,
        classify_request("GET /sleep HTTP/1.1\r\n".as_bytes())
    );
    assert_eq!(
        RequestKind::NotFound,
        classify_request("GET /other HTTP/1.1\r\n".as_bytes())
    );
    let (status, file) = response_parts(RequestKind::Root);
    assert_eq!("HTTP/1.1 200 OK", status);
    assert_eq!("hello.html", file);
    let (status, file) = response_parts(RequestKind::NotFound);
    assert_eq!("HTTP/1.1 404 NOT FOUND", status);
    assert_eq!("404.html", file);
}

#[test]
fn responses_carry_the_byte_length() {
    assert_eq!(
        "HTTP/1.1 200 OK\r\nContent-Length: 5\r\n\r\nhello",
        build_response("HTTP/1.1 200 OK", "hello")
    );
    assert_eq!(
        "HTTP/1.1 200 OK\r\nContent-Length: 0\r\n\r\n",
        build_response("HTTP/1.1 200 OK", "")
    );
    assert_eq!(
        "X\r\nContent-Length: 12\r\n\r\ntwelve bytes",
        build_response("X", "twelve bytes")
    );
}

#[test]
fn thread_pool_scaffold_accepts_work() {
    let pool = ThreadPool::new(4);
    pool.execute(|| {});
}

#[test]
fn guesses_report_their_value() {
    let g = workbook::guessing::Guess::new(42);
    assert_eq!(42, g.value());
}

#[test]
fn summaries_lead_with_the_author() {
    let tweet = workbook::summaries::Tweet {
        username: String::from("horse_ebooks"),
        content: String::from("of course, as you probably already know, people"),
        reply: false,
        retweet: false,
    };
    assert_eq!("@horse_ebooks", tweet.summarize_author());
    assert_eq!("(Read more from @horse_ebooks...", tweet.summarize());

    let article = workbook::summaries::NewsArticle {
        headline: String::from("Penguins win the Stanley Cup Championship!"),
        location: String::from("Pittsburgh, PA, USA"),
        author: String::from("Iceburgh"),
        content: String::from("The Pittsburgh Penguins once again are the best."),
    };
    assert_eq!("Iceburgh", article.summarize_author());
}

#[test]
fn simple_helpers_compute_what_they_say() {
    assert_eq!(5, workbook::functions::five());
    assert_eq!(6, workbook::functions::plus_one(5));
    assert_eq!(6, workbook::advanced::add_one(5));
    assert_eq!(9, workbook::methods::Rectangle::square(3).area());
    assert!(workbook::methods::Rectangle { width: 5, height: 5 }
        .can_hold(&workbook::methods::Rectangle { width: 5, height: 5 }));
    assert_eq!(200, workbook::structs::area(&workbook::structs::Rectangle {
        width: 10,
        height: 20,
    }));
}

#[test]
fn list_tails_share_structure() {
    let a = Rc::new(List::Cons(5, Rc::new(List::Cons(10, Rc::new(List::Nil)))));
    let b = List::Cons(3, Rc::clone(&a));
    match b.tail() {
        Some(rest) => match rest.tail() {
            Some(_) => {}
            None => panic!("the shared list has two values"),
        },
        None => panic!("a cons cell has a tail"),
    }
    assert!(matches!(List::Nil.tail(), None));
}

#[test]
fn myboxes_hold_their_value() {
    let b = workbook::deref::MyBox::new(5);
    assert_eq!(5, b.0);
}

#[test]
fn unit_additions_add_up() {
    let total = Millimeters(1500).add(Meters(2));
    assert_eq!(3500, total.0);
    let p = Point { x: 1, y: 0 }.add(Point { x: 2, y: 3 });
    assert_eq!(Point { x: 3, y: 3 }, p);
    assert_eq!("Spot", workbook::advanced::Dog::baby_name());
}

#[test]
fn summer_breakfast_comes_with_peaches() {
    let mut meal = workbook::restaurant::Breakfast::summer("Rye");
    assert_eq!("Rye", meal.toast);
    meal.toast = String::from("Wheat");
    assert_eq!("Wheat", meal.toast);
}

#[test]
fn ownership_helpers_move_strings_intact() {
    assert_eq!("hello", workbook::ownership::gives_ownership());
    assert_eq!(
        "hello",
        workbook::ownership::takes_and_gives_back(String::from("hello"))
    );
    assert_eq!(5, workbook::ownership::calculate_length(&String::from("hello")));
    let mut s = String::from("hello");
    workbook::ownership::change2(&mut s);
    assert_eq!("hello, world", s);
    let user = workbook::structs::build_user(
        String::from("someone@example.com"),
        String::from("someusername123"),
    );
    assert_eq!("someone@example.com", user.email);
    assert!(user.active);
    assert_eq!(1, user.sign_in_count);
}
