use dislog_hal::toy::{DecodeError, Z5Point, Z5};
use dislog_hal::{dh, Bytes, DisLogPoint, Point, Scalar};

fn s(n: u32) -> Scalar<Z5> {
    Scalar(Z5::new(n))
}

fn p(n: u8) -> Point<Z5Point> {
    Point(Z5Point(n % 5))
}

fn scalars() -> Vec<Scalar<Z5>> {
    vec![s(0), s(1), s(2), s(3), s(4)]
}

fn points() -> Vec<Point<Z5Point>> {
    vec![p(0), p(1), p(2), p(3), p(4)]
}

#[test]
fn toy_field_and_group_of_order_five() {
    assert_eq!(s(2) + s(4), s(1));
    assert_eq!(s(2) * s(3), s(1));
    assert_eq!(s(2).inv(), s(3));
    assert_eq!(Point::<Z5Point>::generator() * s(5), Point::zero());
}

#[test]
fn generator_times_the_order_is_the_identity() {
    assert_eq!(Point::<Z5Point>::generator() * s(5), Point::zero());
    assert_eq!(Point::<Z5Point>::generator() * Scalar::<Z5>::order(), Point::zero());
    assert_eq!(Point::<Z5Point>::generator() * Point::<Z5Point>::order(), Point::zero());
    assert_eq!(s(5) * Point::<Z5Point>::generator(), Point::zero());
}

#[test]
fn point_constants() {
    assert_eq!(Point::<Z5Point>::zero(), p(0));
    assert_eq!(Point::<Z5Point>::one(), p(1));
    assert_eq!(Point::<Z5Point>::generator(), p(1));
    assert_eq!(Point::<Z5Point>::default(), Point::<Z5Point>::generator());
    assert_eq!(Point::<Z5Point>::order(), Scalar::<Z5>::order());
    assert_eq!(Z5Point::order(), Z5(0));
    assert!(Point::<Z5Point>::generator() != Point::<Z5Point>::zero());
}

#[test]
fn point_addition_table() {
    for a in 0..5u8 {
        for b in 0..5u8 {
            assert_eq!(p(a) + p(b), Point(Z5Point((a + b) % 5)));
        }
    }
}

#[test]
fn point_negation_values() {
    assert_eq!(-p(0), p(0));
    assert_eq!(-p(1), p(4));
    assert_eq!(-p(2), p(3));
    assert_eq!(-p(3), p(2));
    assert_eq!(-p(4), p(1));
}

#[test]
fn point_multiples() {
    for a in 0..5u8 {
        for k in 0..5u8 {
            assert_eq!(p(a) * Scalar(Z5(k)), Point(Z5Point((a * k) % 5)));
        }
    }
    assert_eq!(p(3) * s(4), p(2));
}

#[test]
fn point_subtraction_adds_the_inverse() {
    assert_eq!(p(1) - p(3), p(3));
    for a in points() {
        assert_eq!(&a - &a, Point::zero());
        for b in points() {
            assert_eq!(&a - &b, &a + &(-&b));
        }
    }
}

#[test]
fn group_laws_hold_for_every_element() {
    for a in points() {
        assert_eq!(&a + &Point::zero(), a);
        assert_eq!(&a + &(-&a), Point::zero());
        for b in points() {
            for c in points() {
                assert_eq!(&a + &(&b + &c), &(&a + &b) + &c);
            }
        }
    }
}

#[test]
fn scalar_multiplication_laws_hold_for_every_element() {
    for a in points() {
        assert_eq!(&a * &Scalar::one(), a);
        assert_eq!(&a * &Scalar::zero(), Point::zero());
        for j in scalars() {
            for k in scalars() {
                assert_eq!(&a * &(&j + &k), &(&a * &j) + &(&a * &k));
            }
        }
    }
}

#[test]
fn the_generator_enumerates_the_group() {
    let g = Point::<Z5Point>::generator();
    let mut seen = [false; 5];
    for k in scalars() {
        let multiple = &g * &k;
        seen[multiple.0 .0 as usize] = true;
    }
    assert_eq!(seen, [true; 5]);
}

#[test]
fn multiplications_of_the_generator_commute() {
    let g = Point::<Z5Point>::generator();
    for a in scalars() {
        for b in scalars() {
            assert_eq!(&(&g * &a) * &b, &(&g * &b) * &a);
            assert_eq!(&b * &(&a * &g), &a * &(&b * &g));
        }
    }
    assert_eq!(&(&g * &s(2)) * &s(3), p(1));
    assert_eq!(&(&g * &s(3)) * &s(2), p(1));
}

#[test]
fn both_parties_derive_the_same_shared_point() {
    let g = Point::<Z5Point>::generator();
    for a in scalars() {
        for b in scalars() {
            let public_a = dh(a.clone(), g.clone());
            let public_b = dh(b.clone(), g.clone());
            assert_eq!(dh(a.clone(), public_b), dh(b.clone(), public_a));
        }
    }
    assert_eq!(dh(s(3), p(4)), p(2));
    assert_eq!(dh(s(2), dh(s(4), g)), p(3));
}

#[test]
fn point_operator_forms_agree() {
    for a in points() {
        assert_eq!(-a.clone(), -&a);
        for b in points() {
            let sum = &a + &b;
            assert_eq!(a.clone() + b.clone(), sum);
            assert_eq!(a.clone() + &b, sum);
            assert_eq!(&a + b.clone(), sum);
            let difference = &a - &b;
            assert_eq!(a.clone() - b.clone(), difference);
            assert_eq!(a.clone() - &b, difference);
            assert_eq!(&a - b.clone(), difference);
        }
        for k in scalars() {
            let multiple = &a * &k;
            assert_eq!(a.clone() * k.clone(), multiple);
            assert_eq!(a.clone() * &k, multiple);
            assert_eq!(&a * k.clone(), multiple);
            assert_eq!(&k * &a, multiple);
            assert_eq!(k.clone() * a.clone(), multiple);
            assert_eq!(k.clone() * &a, multiple);
            assert_eq!(&k * a.clone(), multiple);
        }
    }
}

#[test]
fn point_compound_assignment() {
    let mut a = p(2);
    a += &p(4);
    assert_eq!(a, p(1));
    a += &p(4);
    assert_eq!(a, p(0));
}

#[test]
fn point_clone_is_an_equal_value() {
    for a in points() {
        let b = a.clone();
        assert!(a == b);
        assert_eq!(a.0, b.0);
    }
    assert!(p(1) != p(2));
}

#[test]
fn point_validity_can_be_tested() {
    for a in points() {
        assert!(a.is_valid());
        assert!(a.0.is_valid());
    }
    assert!(!Point(Z5Point(5)).is_valid());
    assert!(!Z5Point(77).is_valid());
}

#[test]
fn point_coordinates() {
    assert_eq!(p(3).get_x(), s(3));
    assert_eq!(p(3).get_y(), s(0));
    assert_eq!(Point::<Z5Point>::zero().get_x(), s(0));
    assert_eq!(Z5Point(4).get_x(), s(4));
    assert_eq!(Z5Point(4).get_y(), s(0));
}

#[test]
fn point_encoding_is_the_residue_byte() {
    assert_eq!(p(0).to_bytes(), vec![0u8]);
    assert_eq!(p(2).to_bytes(), vec![2u8]);
    assert_eq!(Z5Point(4).to_bytes(), vec![4u8]);
}

#[test]
fn point_round_trip() {
    for a in points() {
        let bytes = a.to_bytes();
        assert_eq!(Point::<Z5Point>::from_bytes(&bytes), Ok(a));
    }
}

#[test]
fn point_decoding_accepts_exactly_the_encodings() {
    for byte in 0..=255u8 {
        let decoded = Point::<Z5Point>::from_bytes(&[byte]);
        if byte < 5 {
            assert_eq!(decoded, Ok(Point(Z5Point(byte))));
        } else {
            assert_eq!(decoded, Err(DecodeError::OutOfRange));
        }
    }
}

#[test]
fn point_decoding_rejects_a_wrong_length() {
    assert_eq!(Point::<Z5Point>::from_bytes(&[]), Err(DecodeError::WrongLength));
    assert_eq!(Point::<Z5Point>::from_bytes(&[1, 1]), Err(DecodeError::WrongLength));
    assert_eq!(Z5Point::from_bytes(&[0, 0, 0]), Err(DecodeError::WrongLength));
}

#[test]
fn point_decoding_rejects_an_integer_out_of_range() {
    assert_eq!(Point::<Z5Point>::from_bytes(&[5]), Err(DecodeError::OutOfRange));
    assert_eq!(Point::<Z5Point>::from_bytes(&[200]), Err(DecodeError::OutOfRange));
    assert_eq!(Z5Point::from_bytes(&[5]), Err(DecodeError::OutOfRange));
}

#[test]
fn point_encoding_has_a_hex_form() {
    assert_eq!(hex::encode(p(4).to_bytes()), "04");
    let bytes = hex::decode("02").unwrap();
    assert_eq!(Point::<Z5Point>::from_bytes(&bytes), Ok(p(2)));
    let wide = hex::decode("ff").unwrap();
    assert_eq!(Point::<Z5Point>::from_bytes(&wide), Err(DecodeError::OutOfRange));
}
