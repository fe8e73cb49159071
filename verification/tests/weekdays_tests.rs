//! The behaviour of the set type on chosen values.

use bytes::BytesMut;
use tokio_postgres::types::{IsNull, Type};
use weekdays::Weekdays;

#[test]
#[allow(non_snake_case)]
fn new__valid() {
    assert_eq!(Weekdays::new(0b0000_0000).bits(), 0b0000_0000);
    assert_eq!(Weekdays::new(0b0000_0001).bits(), 0b0000_0001);
    assert_eq!(Weekdays::new(0b0000_1000).bits(), 0b0000_1000);
    assert_eq!(Weekdays::new(0b0100_0000).bits(), 0b0100_0000);
    assert_eq!(Weekdays::new(0b0111_1111).bits(), 0b0111_1111);
}

#[test]
#[allow(non_snake_case)]
fn new__invalid() {
    assert_eq!(Weekdays::new(0b1000_0000).bits(), 0b0000_0000);
    assert_eq!(Weekdays::new(0b1000_0001).bits(), 0b0000_0001);
    assert_eq!(Weekdays::new(0b1111_1111).bits(), 0b0111_1111);
}

#[test]
fn contains() {
    let weekdays = Weekdays::new(0b01010_10);
    assert!( weekdays.contains(Weekdays::new(0b00000_00)));
    assert!(!weekdays.contains(Weekdays::new(0b00000_01)));
    assert!( weekdays.contains(Weekdays::new(0b00000_10)));
    assert!( weekdays.contains(Weekdays::new(0b01010_00)));
    assert!( weekdays.contains(Weekdays::new(0b01010_10)));
    assert!(!weekdays.contains(Weekdays::new(0b01010_11)));
}

#[test]
fn days() {
    assert_eq!(Weekdays::new(0b00000_00).days(), 0);
    assert_eq!(Weekdays::new(0b00000_01).days(), 1);
    assert_eq!(Weekdays::new(0b00010_00).days(), 1);
    assert_eq!(Weekdays::new(0b10001_00).days(), 2);
    assert_eq!(Weekdays::new(0b11111_11).days(), 7);
}

#[test]
fn is_empty() {
    assert!( Weekdays::new(0b00000_00).is_empty());
    assert!(!Weekdays::new(0b00000_01).is_empty());
    assert!(!Weekdays::new(0b00010_00).is_empty());
    assert!(!Weekdays::new(0b10001_00).is_empty());
    assert!(!Weekdays::new(0b11111_11).is_empty());
}

#[test]
fn is_weekday() {
    assert!( Weekdays::monday().is_weekday());
    assert!( Weekdays::tuesday().is_weekday());
    assert!( Weekdays::wednesday().is_weekday());
    assert!( Weekdays::thursday().is_weekday());
    assert!( Weekdays::friday().is_weekday());
    assert!(!Weekdays::saturday().is_weekday());
    assert!(!Weekdays::sunday().is_weekday());
    assert!( Weekdays::weekdays().is_weekday());
    assert!(!Weekdays::weekends().is_weekday());
}

#[test]
fn is_weekend() {
    assert!(!Weekdays::monday().is_weekend());
    assert!(!Weekdays::tuesday().is_weekend());
    assert!(!Weekdays::wednesday().is_weekend());
    assert!(!Weekdays::thursday().is_weekend());
    assert!(!Weekdays::friday().is_weekend());
    assert!( Weekdays::saturday().is_weekend());
    assert!( Weekdays::sunday().is_weekend());
    assert!(!Weekdays::weekdays().is_weekend());
    assert!( Weekdays::weekends().is_weekend());
}

#[test]
fn iter() {
    let weekdays = Weekdays::new(0b01010_10);
    let mut iter = weekdays.iter();
    assert_eq!(iter.next(), Some(Weekdays::tuesday()));
    assert_eq!(iter.next(), Some(Weekdays::thursday()));
    assert_eq!(iter.next(), Some(Weekdays::saturday()));
    assert_eq!(iter.next(), None);
}

#[test]
fn to_vec() {
    assert_eq!(Weekdays::new(0b00000_00).to_vec(), vec![]);
    assert_eq!(Weekdays::new(0b00000_01).to_vec(), vec![Weekdays::sunday()]);
    assert_eq!(Weekdays::new(0b00010_00).to_vec(), vec![Weekdays::thursday()]);
    assert_eq!(Weekdays::new(0b10001_00).to_vec(), vec![Weekdays::monday(), Weekdays::friday()]);
    assert_eq!(Weekdays::new(0b11111_11).to_vec(), vec![
        Weekdays::monday(),
        Weekdays::tuesday(),
        Weekdays::wednesday(),
        Weekdays::thursday(),
        Weekdays::friday(),
        Weekdays::saturday(),
        Weekdays::sunday(),
    ]);
}

#[test]
fn eq() {
    assert_eq!(Weekdays::new(0b00000_00), Weekdays::new(0b00000_00));
    assert_eq!(Weekdays::new(0b00000_01), Weekdays::new(0b00000_01));
    assert_eq!(Weekdays::new(0b00010_00), Weekdays::new(0b00010_00));
    assert_eq!(Weekdays::new(0b10000_00), Weekdays::new(0b10000_00));
    assert_eq!(Weekdays::new(0b11111_11), Weekdays::new(0b11111_11));
}

#[test]
fn ord() {
    assert!(Weekdays::new(0b00000_00) < Weekdays::new(0b00000_01));
    assert!(Weekdays::new(0b00000_01) < Weekdays::new(0b00010_00));
    assert!(Weekdays::new(0b00010_00) < Weekdays::new(0b10000_00));
    assert!(Weekdays::new(0b10000_00) < Weekdays::new(0b11111_11));
}

#[test]
fn add() {
    assert_eq!(Weekdays::new(0b00000_00) + Weekdays::new(0b00000_00), Weekdays::new(0b00000_00));
    assert_eq!(Weekdays::new(0b00000_01) + Weekdays::new(0b00000_00), Weekdays::new(0b00000_01));
    assert_eq!(Weekdays::new(0b00000_00) + Weekdays::new(0b00000_01), Weekdays::new(0b00000_01));
    assert_eq!(Weekdays::new(0b00000_01) + Weekdays::new(0b00000_01), Weekdays::new(0b00000_01));
    assert_eq!(Weekdays::new(0b00000_01) + Weekdays::new(0b00000_10), Weekdays::new(0b00000_11));
}

#[test]
fn add_assign() {
    let mut weekdays1 = Weekdays::new(0b00000_00);
    weekdays1        += Weekdays::new(0b00000_00);
    assert_eq!(weekdays1, Weekdays::new(0b00000_00));

    let mut weekdays2 = Weekdays::new(0b00000_01);
    weekdays2        += Weekdays::new(0b00000_00);
    assert_eq!(weekdays2, Weekdays::new(0b00000_01));

    let mut weekdays3 = Weekdays::new(0b00000_00);
    weekdays3        += Weekdays::new(0b00000_01);
    assert_eq!(weekdays3, Weekdays::new(0b00000_01));

    let mut weekdays4 = Weekdays::new(0b00000_01);
    weekdays4        += Weekdays::new(0b00000_01);
    assert_eq!(weekdays4, Weekdays::new(0b00000_01));

    let mut weekdays5 = Weekdays::new(0b00000_01);
    weekdays5        += Weekdays::new(0b00000_10);
    assert_eq!(weekdays5, Weekdays::new(0b00000_11));
}

#[test]
fn bitand() {
    assert_eq!(Weekdays::new(0b00000_00) & Weekdays::new(0b00000_00), Weekdays::new(0b00000_00));
    assert_eq!(Weekdays::new(0b00000_01) & Weekdays::new(0b00000_00), Weekdays::new(0b00000_00));
    assert_eq!(Weekdays::new(0b00000_00) & Weekdays::new(0b00000_01), Weekdays::new(0b00000_00));
    assert_eq!(Weekdays::new(0b00000_01) & Weekdays::new(0b00000_01), Weekdays::new(0b00000_01));
    assert_eq!(Weekdays::new(0b00000_01) & Weekdays::new(0b00000_10), Weekdays::new(0b00000_00));
}

#[test]
fn bitand_assign() {
    let mut weekdays1 = Weekdays::new(0b00000_00);
    weekdays1        &= Weekdays::new(0b00000_00);
    assert_eq!(weekdays1, Weekdays::new(0b00000_00));

    let mut weekdays2 = Weekdays::new(0b00000_01);
    weekdays2        &= Weekdays::new(0b00000_00);
    assert_eq!(weekdays2, Weekdays::new(0b00000_00));

    let mut weekdays3 = Weekdays::new(0b00000_00);
    weekdays3        &= Weekdays::new(0b00000_01);
    assert_eq!(weekdays3, Weekdays::new(0b00000_00));

    let mut weekdays4 = Weekdays::new(0b00000_01);
    weekdays4        &= Weekdays::new(0b00000_01);
    assert_eq!(weekdays4, Weekdays::new(0b00000_01));

    let mut weekdays5 = Weekdays::new(0b00000_01);
    weekdays5        &= Weekdays::new(0b00000_10);
    assert_eq!(weekdays5, Weekdays::new(0b00000_00));
}

#[test]
fn bitor() {
    assert_eq!(Weekdays::new(0b00000_00) | Weekdays::new(0b00000_00), Weekdays::new(0b00000_00));
    assert_eq!(Weekdays::new(0b00000_01) | Weekdays::new(0b00000_00), Weekdays::new(0b00000_01));
    assert_eq!(Weekdays::new(0b00000_00) | Weekdays::new(0b00000_01), Weekdays::new(0b00000_01));
    assert_eq!(Weekdays::new(0b00000_01) | Weekdays::new(0b00000_01), Weekdays::new(0b00000_01));
    assert_eq!(Weekdays::new(0b00000_01) | Weekdays::new(0b00000_10), Weekdays::new(0b00000_11));
}

#[test]
fn bitor_assign() {
    let mut weekdays1 = Weekdays::new(0b00000_00);
    weekdays1        |= Weekdays::new(0b00000_00);
    assert_eq!(weekdays1, Weekdays::new(0b00000_00));

    let mut weekdays2 = Weekdays::new(0b00000_01);
    weekdays2        |= Weekdays::new(0b00000_00);
    assert_eq!(weekdays2, Weekdays::new(0b00000_01));

    let mut weekdays3 = Weekdays::new(0b00000_00);
    weekdays3        |= Weekdays::new(0b00000_01);
    assert_eq!(weekdays3, Weekdays::new(0b00000_01));

    let mut weekdays4 = Weekdays::new(0b00000_01);
    weekdays4        |= Weekdays::new(0b00000_01);
    assert_eq!(weekdays4, Weekdays::new(0b00000_01));

    let mut weekdays5 = Weekdays::new(0b00000_01);
    weekdays5        |= Weekdays::new(0b00000_10);
    assert_eq!(weekdays5, Weekdays::new(0b00000_11));
}

#[test]
fn bitxor() {
    assert_eq!(Weekdays::new(0b00000_00) ^ Weekdays::new(0b00000_00), Weekdays::new(0b00000_00));
    assert_eq!(Weekdays::new(0b00000_01) ^ Weekdays::new(0b00000_00), Weekdays::new(0b00000_01));
    assert_eq!(Weekdays::new(0b00000_00) ^ Weekdays::new(0b00000_01), Weekdays::new(0b00000_01));
    assert_eq!(Weekdays::new(0b00000_01) ^ Weekdays::new(0b00000_01), Weekdays::new(0b00000_00));
    assert_eq!(Weekdays::new(0b00000_01) ^ Weekdays::new(0b00000_10), Weekdays::new(0b00000_11));
}

#[test]
fn bitxor_assign() {
    let mut weekdays1 = Weekdays::new(0b00000_00);
    weekdays1        ^= Weekdays::new(0b00000_00);
    assert_eq!(weekdays1, Weekdays::new(0b00000_00));

    let mut weekdays2 = Weekdays::new(0b00000_01);
    weekdays2        ^= Weekdays::new(0b00000_00);
    assert_eq!(weekdays2, Weekdays::new(0b00000_01));

    let mut weekdays3 = Weekdays::new(0b00000_00);
    weekdays3        ^= Weekdays::new(0b00000_01);
    assert_eq!(weekdays3, Weekdays::new(0b00000_01));

    let mut weekdays4 = Weekdays::new(0b00000_01);
    weekdays4        ^= Weekdays::new(0b00000_01);
    assert_eq!(weekdays4, Weekdays::new(0b00000_00));

    let mut weekdays5 = Weekdays::new(0b00000_01);
    weekdays5        ^= Weekdays::new(0b00000_10);
    assert_eq!(weekdays5, Weekdays::new(0b00000_11));
}

#[test]
fn debug() {
    assert_eq!(Weekdays::new(0b00000_00).to_debug_string(), "Weekdays(000_0000)");
    assert_eq!(Weekdays::new(0b00000_01).to_debug_string(), "Weekdays(000_0001)");
    assert_eq!(Weekdays::new(0b00010_00).to_debug_string(), "Weekdays(000_1000)");
    assert_eq!(Weekdays::new(0b10000_00).to_debug_string(), "Weekdays(100_0000)");
    assert_eq!(Weekdays::new(0b11111_11).to_debug_string(), "Weekdays(111_1111)");
}

#[test]
fn display() {
    assert_eq!(Weekdays::new(0b00000_00).to_string(), "00000_00");
    assert_eq!(Weekdays::new(0b00000_01).to_string(), "00000_01");
    assert_eq!(Weekdays::new(0b00010_00).to_string(), "00010_00");
    assert_eq!(Weekdays::new(0b10000_00).to_string(), "10000_00");
    assert_eq!(Weekdays::new(0b11111_11).to_string(), "11111_11");
}

#[test]
fn into_iterator() {
    let weekdays = Weekdays::new(0b01010_10);
    let mut iter = weekdays.into_iter();
    assert_eq!(iter.next(), Some(Weekdays::tuesday()));
    assert_eq!(iter.next(), Some(Weekdays::thursday()));
    assert_eq!(iter.next(), Some(Weekdays::saturday()));
    assert_eq!(iter.next(), None);
}

#[test]
fn not() {
    assert_eq!(!Weekdays::new(0b00000_00), Weekdays::new(0b11111_11));
    assert_eq!(!Weekdays::new(0b00000_01), Weekdays::new(0b11111_10));
    assert_eq!(!Weekdays::new(0b00010_00), Weekdays::new(0b11101_11));
    assert_eq!(!Weekdays::new(0b10000_00), Weekdays::new(0b01111_11));
    assert_eq!(!Weekdays::new(0b11111_11), Weekdays::new(0b00000_00));
}

#[test]
fn sub_assign() {
    let mut weekdays1 = Weekdays::new(0b00000_00);
    weekdays1        -= Weekdays::new(0b00000_00);
    assert_eq!(weekdays1, Weekdays::new(0b00000_00));

    let mut weekdays2 = Weekdays::new(0b00000_01);
    weekdays2        -= Weekdays::new(0b00000_00);
    assert_eq!(weekdays2, Weekdays::new(0b00000_01));

    let mut weekdays3 = Weekdays::new(0b00000_00);
    weekdays3        -= Weekdays::new(0b00000_01);
    assert_eq!(weekdays3, Weekdays::new(0b00000_00));

    let mut weekdays4 = Weekdays::new(0b00000_01);
    weekdays4        -= Weekdays::new(0b00000_01);
    assert_eq!(weekdays4, Weekdays::new(0b00000_00));

    let mut weekdays5 = Weekdays::new(0b00000_11);
    weekdays5        -= Weekdays::new(0b00000_01);
    assert_eq!(weekdays5, Weekdays::new(0b00000_10));
}

#[test]
fn sub() {
    assert_eq!(Weekdays::new(0b00000_00) - Weekdays::new(0b00000_00), Weekdays::new(0b00000_00));
    assert_eq!(Weekdays::new(0b00000_01) - Weekdays::new(0b00000_00), Weekdays::new(0b00000_01));
    assert_eq!(Weekdays::new(0b00000_00) - Weekdays::new(0b00000_01), Weekdays::new(0b00000_00));
    assert_eq!(Weekdays::new(0b00000_01) - Weekdays::new(0b00000_01), Weekdays::new(0b00000_00));
    assert_eq!(Weekdays::new(0b00000_11) - Weekdays::new(0b00000_01), Weekdays::new(0b00000_10));
}

#[test]
#[allow(non_snake_case)]
fn from_sql__valid() {
    assert_eq!(Weekdays::from_sql(&Type::BIT, &[0b00000_00]).unwrap(), Weekdays::new(0b00000_00));
    assert_eq!(Weekdays::from_sql(&Type::BIT, &[0b00000_01]).unwrap(), Weekdays::new(0b00000_01));
    assert_eq!(Weekdays::from_sql(&Type::BIT, &[0b00010_00]).unwrap(), Weekdays::new(0b00010_00));
    assert_eq!(Weekdays::from_sql(&Type::BIT, &[0b10000_00]).unwrap(), Weekdays::new(0b10000_00));
    assert_eq!(Weekdays::from_sql(&Type::BIT, &[0b11111_11]).unwrap(), Weekdays::new(0b11111_11));
}

#[test]
#[allow(non_snake_case)]
fn from_sql__invalid_type() {
    let err = Weekdays::from_sql(&Type::FLOAT4, &42_i32.to_be_bytes());
    assert!(err.is_err());
    assert_eq!(err.unwrap_err().to_string(), "Invalid type for Weekdays: float4");
}

#[test]
#[allow(non_snake_case)]
fn from_sql__accepts() {
    assert!( Weekdays::accepts(&Type::BIT));
    assert!(!Weekdays::accepts(&Type::INT4));
    assert!(!Weekdays::accepts(&Type::INT8));
    assert!(!Weekdays::accepts(&Type::TEXT));
    assert!(!Weekdays::accepts(&Type::FLOAT4));
}

#[test]
#[allow(non_snake_case)]
fn to_sql__valid() {
    let mut bytes = BytesMut::new();

    match Weekdays::new(0b00101_01).to_sql(&Type::BIT, &mut bytes).unwrap() {
        IsNull::No  => (),
        IsNull::Yes => panic!("Unexpected NULL value"),
    }

    assert_eq!(u8::from_be_bytes(bytes.as_ref().try_into().unwrap()), 0b00101_01);
}

#[test]
#[allow(non_snake_case)]
fn to_sql__accepts() {
    assert!( Weekdays::accepts(&Type::BIT));
    assert!(!Weekdays::accepts(&Type::INT4));
    assert!(!Weekdays::accepts(&Type::INT8));
    assert!(!Weekdays::accepts(&Type::TEXT));
    assert!(!Weekdays::accepts(&Type::FLOAT4));
}
