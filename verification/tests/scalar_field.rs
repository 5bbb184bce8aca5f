use dislog_hal::toy::{DecodeError, Z5};
use dislog_hal::{Bytes, Scalar, ScalarNumber};
use rand::rngs::mock::StepRng;
use rand::rngs::StdRng;
use rand::{RngCore, SeedableRng};

fn s(n: u32) -> Scalar<Z5> {
    Scalar(Z5::new(n))
}

fn all() -> Vec<Scalar<Z5>> {
    vec![s(0), s(1), s(2), s(3), s(4)]
}

#[test]
fn toy_field_of_order_five() {
    assert_eq!(s(2) + s(4), s(1));
    assert_eq!(s(2) * s(3), s(1));
    assert_eq!(s(2).inv(), s(3));
}

#[test]
fn integers_are_reduced_into_the_field() {
    assert_eq!(Z5::new(0), Z5(0));
    assert_eq!(Z5::new(4), Z5(4));
    assert_eq!(Z5::new(5), Z5(0));
    assert_eq!(Z5::new(7), Z5(2));
    assert_eq!(Z5::new(255), Z5(0));
    assert_eq!(Z5::new(4_294_967_295), Z5(0));
    assert_eq!(Z5::new(4_294_967_294), Z5(4));
}

#[test]
fn scalar_constants() {
    assert_eq!(Scalar::<Z5>::zero(), s(0));
    assert_eq!(Scalar::<Z5>::one(), s(1));
    assert_eq!(Scalar::<Z5>::order(), s(5));
    assert_eq!(Scalar::<Z5>::order(), Scalar(Z5(0)));
    assert_eq!(Scalar::<Z5>::default(), Scalar::<Z5>::zero());
}

#[test]
fn scalar_addition_table() {
    for a in 0..5u8 {
        for b in 0..5u8 {
            assert_eq!(Scalar(Z5(a)) + Scalar(Z5(b)), Scalar(Z5((a + b) % 5)));
        }
    }
}

#[test]
fn scalar_multiplication_table() {
    for a in 0..5u8 {
        for b in 0..5u8 {
            assert_eq!(Scalar(Z5(a)) * Scalar(Z5(b)), Scalar(Z5((a * b) % 5)));
        }
    }
}

#[test]
fn scalar_negation_values() {
    assert_eq!(-s(0), s(0));
    assert_eq!(-s(1), s(4));
    assert_eq!(-s(2), s(3));
    assert_eq!(-s(3), s(2));
    assert_eq!(-s(4), s(1));
}

#[test]
fn scalar_inverse_values() {
    assert_eq!(s(1).inv(), s(1));
    assert_eq!(s(2).inv(), s(3));
    assert_eq!(s(3).inv(), s(2));
    assert_eq!(s(4).inv(), s(4));
}

#[test]
fn scalar_subtraction_adds_the_negation() {
    assert_eq!(s(1) - s(3), s(3));
    assert_eq!(s(4) - s(4), s(0));
    for a in all() {
        for b in all() {
            assert_eq!(&a - &b, &a + &(-&b));
        }
    }
}

#[test]
fn field_laws_hold_for_every_element() {
    for a in all() {
        assert_eq!(&a + &(-&a), Scalar::zero());
        for b in all() {
            assert_eq!(&a + &b, &b + &a);
            assert_eq!(&a * &b, &b * &a);
            for c in all() {
                assert_eq!(&a + &(&b + &c), &(&a + &b) + &c);
                assert_eq!(&a * &(&b * &c), &(&a * &b) * &c);
                assert_eq!(&a * &(&b + &c), &(&a * &b) + &(&a * &c));
            }
        }
    }
}

#[test]
fn every_element_but_zero_has_an_inverse() {
    for a in all() {
        if a != Scalar::zero() {
            assert_eq!(&a * &a.inv(), Scalar::one());
        }
    }
}

#[test]
fn scalar_operator_forms_agree() {
    for a in all() {
        assert_eq!(-a.clone(), -&a);
        for b in all() {
            let sum = &a + &b;
            assert_eq!(a.clone() + b.clone(), sum);
            assert_eq!(a.clone() + &b, sum);
            assert_eq!(&a + b.clone(), sum);
            let product = &a * &b;
            assert_eq!(a.clone() * b.clone(), product);
            assert_eq!(a.clone() * &b, product);
            assert_eq!(&a * b.clone(), product);
            let difference = &a - &b;
            assert_eq!(a.clone() - b.clone(), difference);
            assert_eq!(a.clone() - &b, difference);
            assert_eq!(&a - b.clone(), difference);
        }
    }
}

#[test]
fn scalar_compound_assignment() {
    let mut a = s(2);
    a += &s(4);
    assert_eq!(a, s(1));
    a *= &s(3);
    assert_eq!(a, s(3));
    a += &s(2);
    assert_eq!(a, s(0));
    a *= &s(4);
    assert_eq!(a, s(0));
}

#[test]
fn scalar_clone_is_an_equal_value() {
    for a in all() {
        let b = a.clone();
        assert!(a == b);
        assert_eq!(a.0, b.0);
    }
    assert!(s(1) != s(2));
}

#[test]
fn scalar_random_reduces_what_the_source_yields() {
    let mut rng = StepRng::new(7, 1);
    assert_eq!(Scalar::<Z5>::random(&mut rng), Some(s(2)));
    assert_eq!(Scalar::<Z5>::random(&mut rng), Some(s(3)));
    assert_eq!(Scalar::<Z5>::random(&mut rng), Some(s(4)));
    assert_eq!(Scalar::<Z5>::random(&mut rng), Some(s(0)));
    let mut big = StepRng::new(4_294_967_295, 0);
    assert_eq!(Scalar::<Z5>::random(&mut big), Some(s(0)));
    assert_eq!(Z5::random(&mut StepRng::new(11, 0)), Some(Z5(1)));
    assert_eq!(Z5::random(&mut StepRng::new(256, 0)), Some(Z5(1)));
}

#[test]
fn scalar_random_is_always_a_field_element() {
    let mut rng = StdRng::seed_from_u64(2024);
    let mut seen = [false; 5];
    for _ in 0..200 {
        let drawn = Scalar::<Z5>::random(&mut rng).unwrap();
        assert!(drawn.is_valid());
        assert!(drawn.0 .0 < 5);
        seen[drawn.0 .0 as usize] = true;
    }
    assert_eq!(seen, [true; 5]);
}

/// A source that has nothing to give.
struct Dry;

impl RngCore for Dry {
    fn next_u32(&mut self) -> u32 {
        panic!("the source is dry")
    }

    fn next_u64(&mut self) -> u64 {
        panic!("the source is dry")
    }

    fn fill_bytes(&mut self, _dest: &mut [u8]) {
        panic!("the source is dry")
    }

    fn try_fill_bytes(&mut self, _dest: &mut [u8]) -> Result<(), rand::Error> {
        Err(rand::Error::new("the source is dry"))
    }
}

#[test]
fn scalar_random_gives_nothing_when_the_source_fails() {
    assert_eq!(Scalar::<Z5>::random(&mut Dry), None);
    assert_eq!(Z5::random(&mut Dry), None);
}

#[test]
fn scalar_validity_can_be_tested() {
    for a in all() {
        assert!(a.is_valid());
        assert!(a.0.is_valid());
    }
    assert!(Scalar::<Z5>::order().is_valid());
    assert!(!Scalar(Z5(5)).is_valid());
    assert!(!Z5(200).is_valid());
}

#[test]
fn zero_and_one_are_the_identities() {
    assert!(Scalar::<Z5>::one() != Scalar::<Z5>::zero());
    assert_eq!(-Scalar::<Z5>::zero(), Scalar::zero());
    for a in all() {
        assert_eq!(&a + &Scalar::zero(), a);
        assert_eq!(&a * &Scalar::one(), a);
        assert_eq!(&a * &Scalar::zero(), Scalar::zero());
    }
}

#[test]
fn subtraction_undoes_addition() {
    for a in all() {
        for b in all() {
            assert_eq!(&(&a - &b) + &b, a);
        }
    }
    assert_eq!(&(&s(1) - &s(3)) + &s(3), s(1));
}

#[test]
fn the_inverse_of_an_element_is_never_zero() {
    for a in all() {
        if a != Scalar::zero() {
            assert!(a.inv() != Scalar::zero());
        }
    }
}

#[test]
fn scalar_encoding_is_the_residue_byte() {
    assert_eq!(s(0).to_bytes(), vec![0u8]);
    assert_eq!(s(3).to_bytes(), vec![3u8]);
    assert_eq!(Scalar::<Z5>::order().to_bytes(), vec![0u8]);
    assert_eq!(Z5(4).to_bytes(), vec![4u8]);
}

#[test]
fn scalar_round_trip() {
    for a in all() {
        let bytes = a.to_bytes();
        assert_eq!(Scalar::<Z5>::from_bytes(&bytes), Ok(a));
    }
}

#[test]
fn scalar_decoding_accepts_exactly_the_encodings() {
    for byte in 0..=255u8 {
        let decoded = Scalar::<Z5>::from_bytes(&[byte]);
        if byte < 5 {
            assert_eq!(decoded, Ok(Scalar(Z5(byte))));
        } else {
            assert_eq!(decoded, Err(DecodeError::OutOfRange));
        }
    }
}

#[test]
fn scalar_decoding_rejects_a_wrong_length() {
    assert_eq!(Scalar::<Z5>::from_bytes(&[]), Err(DecodeError::WrongLength));
    assert_eq!(Scalar::<Z5>::from_bytes(&[1, 2]), Err(DecodeError::WrongLength));
    assert_eq!(Scalar::<Z5>::from_bytes(&[0, 0]), Err(DecodeError::WrongLength));
    assert_eq!(Z5::from_bytes(&[9, 9, 9]), Err(DecodeError::WrongLength));
}

#[test]
fn scalar_decoding_rejects_an_integer_out_of_range() {
    assert_eq!(Scalar::<Z5>::from_bytes(&[5]), Err(DecodeError::OutOfRange));
    assert_eq!(Scalar::<Z5>::from_bytes(&[6]), Err(DecodeError::OutOfRange));
    assert_eq!(Scalar::<Z5>::from_bytes(&[255]), Err(DecodeError::OutOfRange));
    assert_eq!(Z5::from_bytes(&[5]), Err(DecodeError::OutOfRange));
}

#[test]
fn scalar_encoding_has_a_hex_form() {
    assert_eq!(hex::encode(s(3).to_bytes()), "03");
    let bytes = hex::decode("04").unwrap();
    assert_eq!(Scalar::<Z5>::from_bytes(&bytes), Ok(s(4)));
    let wide = hex::decode("0a").unwrap();
    assert_eq!(Scalar::<Z5>::from_bytes(&wide), Err(DecodeError::OutOfRange));
    let long = hex::decode("0102").unwrap();
    assert_eq!(Scalar::<Z5>::from_bytes(&long), Err(DecodeError::WrongLength));
}
