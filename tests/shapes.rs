use rust_basics::generics::{largest, Point, PointCart};
use rust_basics::structures::{
    area, area_struct, area_tuple, build_new_user, build_user, Rectangle,
};

#[test]
fn rectangle_areas() {
    assert_eq!(area(30, 50), 1500);
    assert_eq!(area_tuple((30, 50)), 1500);
    let rect = Rectangle { width: 60, height: 50 };
    assert_eq!(area_struct(&rect), 3000);
    assert_eq!(rect.rect_area(), 3000);
}

#[test]
fn rectangle_width_and_holding() {
    let rect1 = Rectangle { width: 60, height: 50 };
    let rect2 = Rectangle { width: 10, height: 40 };
    let rect3 = Rectangle { width: 60, height: 45 };
    assert!(rect1.width());
    assert!(!Rectangle { width: 0, height: 5 }.width());
    assert!(rect1.can_hold(&rect2));
    assert!(!rect1.can_hold(&rect3));
    assert!(!rect1.can_hold(&rect1));
}

#[test]
fn square_has_equal_sides() {
    assert_eq!(Rectangle::square(3), Rectangle { width: 3, height: 3 });
}

#[test]
fn new_users() {
    let u = build_new_user(String::from("someone@example.com"), String::from("someusername123"));
    assert!(u.active);
    assert_eq!(u.email, "someone@example.com");
    assert_eq!(u.username, "someusername123");
    assert_eq!(u.sign_in_count, 1);
    let v = build_user(String::from("a@b.c"), String::from("abc"));
    assert!(v.active);
    assert_eq!(v.email, "a@b.c");
    assert_eq!(v.username, "abc");
    assert_eq!(v.sign_in_count, 1);
}

#[test]
fn largest_number() {
    assert_eq!(*largest(&[34, 50, 25, 100, 65]), 100);
    assert_eq!(*largest(&[-3]), -3);
    assert_eq!(*largest(&[-3, -7, -1, -9]), -1);
}

#[test]
fn points() {
    let p = Point { x: 5, y: 10 };
    assert_eq!(*p.x(), 5);
    let p1 = PointCart { x: 5, y: 10 };
    let p2 = PointCart { x: "Hello", y: 'c' };
    let p3 = p1.mixup(p2);
    assert_eq!(p3.x, 5);
    assert_eq!(p3.y, 'c');
}
