use std::cell::RefCell;
use std::rc::Rc;
use workbook::screen::Button;
use workbook::screen::Draw;
use workbook::screen::Screen;

struct SelectBox {
    width: u32,
    height: u32,
    options: Vec<String>,
    drawn: Rc<RefCell<u32>>,
}

impl Draw for SelectBox {
    fn draw(&self) {
        *self.drawn.borrow_mut() += 1;
    }
}

#[test]
fn screen_draws_every_component() {
    let drawn = Rc::new(RefCell::new(0));
    let select_box = SelectBox {
        width: 3,
        height: 4,
        options: vec![
            String::from("Option 1"),
            String::from("Option 2"),
            String::from("Option 3"),
        ],
        drawn: Rc::clone(&drawn),
    };

    let button = Button {
        width: 30,
        height: 20,
        label: String::from("OK"),
    };

    let screen = Screen {
        components: vec![Box::new(select_box), Box::new(button)],
    };

    screen.run();
    screen.run();
    assert_eq!(2, *drawn.borrow());
    assert_eq!(2, screen.components.len());
}
