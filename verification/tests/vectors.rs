use generic_simd::arch::{Generic, Token};
use generic_simd::generic::Single;
use generic_simd::scalar::Number;
use generic_simd::shim::{Product, Shim2, Shim4, Shim8, Sum};
use generic_simd::vector::{NativeVector, Ops, Signed, Vector, VectorOf};
use generic_simd::width::{W1, W2, W4, W8};

#[derive(Clone, Copy, Debug, PartialEq)]
struct F32(f32);

impl Number for F32 {
    fn zero_value() -> Self {
        F32(0.0)
    }

    fn one_value() -> Self {
        F32(1.0)
    }

    fn added(self, rhs: Self) -> Self {
        F32(self.0 + rhs.0)
    }

    fn subtracted(self, rhs: Self) -> Self {
        F32(self.0 - rhs.0)
    }

    fn multiplied(self, rhs: Self) -> Self {
        F32(self.0 * rhs.0)
    }

    fn divided(self, rhs: Self) -> Self {
        F32(self.0 / rhs.0)
    }

    fn negated(self) -> Self {
        F32(-self.0)
    }

    fn zero() -> Self {
        F32(0.0)
    }

    fn one() -> Self {
        F32(1.0)
    }

    fn add(self, rhs: Self) -> Self {
        F32(self.0 + rhs.0)
    }

    fn sub(self, rhs: Self) -> Self {
        F32(self.0 - rhs.0)
    }

    fn mul(self, rhs: Self) -> Self {
        F32(self.0 * rhs.0)
    }

    fn div(self, rhs: Self) -> Self {
        F32(self.0 / rhs.0)
    }

    fn neg(self) -> Self {
        F32(-self.0)
    }
}

#[derive(Clone, Copy, Debug, PartialEq)]
struct F64(f64);

impl Number for F64 {
    fn zero_value() -> Self {
        F64(0.0)
    }

    fn one_value() -> Self {
        F64(1.0)
    }

    fn added(self, rhs: Self) -> Self {
        F64(self.0 + rhs.0)
    }

    fn subtracted(self, rhs: Self) -> Self {
        F64(self.0 - rhs.0)
    }

    fn multiplied(self, rhs: Self) -> Self {
        F64(self.0 * rhs.0)
    }

    fn divided(self, rhs: Self) -> Self {
        F64(self.0 / rhs.0)
    }

    fn negated(self) -> Self {
        F64(-self.0)
    }

    fn zero() -> Self {
        F64(0.0)
    }

    fn one() -> Self {
        F64(1.0)
    }

    fn add(self, rhs: Self) -> Self {
        F64(self.0 + rhs.0)
    }

    fn sub(self, rhs: Self) -> Self {
        F64(self.0 - rhs.0)
    }

    fn mul(self, rhs: Self) -> Self {
        F64(self.0 * rhs.0)
    }

    fn div(self, rhs: Self) -> Self {
        F64(self.0 / rhs.0)
    }

    fn neg(self) -> Self {
        F64(-self.0)
    }
}

type V1 = VectorOf<F32, W1, Generic>;
type V2 = VectorOf<F32, W2, Generic>;
type V4 = VectorOf<F32, W4, Generic>;
type V8 = VectorOf<F32, W8, Generic>;

fn token() -> Generic {
    Generic::new().unwrap()
}

fn floats(values: &[f32]) -> Vec<F32> {
    values.iter().map(|x| F32(*x)).collect()
}

#[test]
fn splat_three_plus_splat_four_is_seven() {
    let a = V1::splat(token(), F32(3.0));
    let b = V1::splat(token(), F32(4.0));
    assert_eq!(a.add(b).as_slice(), floats(&[7.0]));
}

#[test]
fn width_two_shim_adds_each_half() {
    let a = Shim2::<Single<F32>, F32>::from_halves(
        Single::splat(token(), F32(3.0)),
        Single::splat(token(), F32(4.0)),
    );
    let b = Shim2::<Single<F32>, F32>::read(token(), &floats(&[1.0, 1.0]));
    assert_eq!(a.add(b).as_slice(), floats(&[4.0, 5.0]));
}

#[test]
fn widths_are_one_two_four_eight() {
    assert_eq!(V1::width(), 1);
    assert_eq!(V2::width(), 2);
    assert_eq!(V4::width(), 4);
    assert_eq!(V8::width(), 8);
    assert_eq!(NativeVector::<F32, Generic>::width(), 1);
    assert_eq!(VectorOf::<F64, W8, Generic>::width(), 8);
}

#[test]
fn zeroed_holds_width_zeros() {
    assert_eq!(V1::zeroed(token()).as_slice(), floats(&[0.0]));
    assert_eq!(V2::zeroed(token()).as_slice(), floats(&[0.0; 2]));
    assert_eq!(V4::zeroed(token()).as_slice(), floats(&[0.0; 4]));
    assert_eq!(V8::zeroed(token()).as_slice(), floats(&[0.0; 8]));
    let wide = VectorOf::<F64, W4, Generic>::zeroed(token());
    assert_eq!(wide.as_slice(), vec![F64(0.0); 4]);
}

#[test]
fn splat_fills_every_lane() {
    assert_eq!(V1::splat(token(), F32(2.5)).as_slice(), floats(&[2.5]));
    assert_eq!(V2::splat(token(), F32(2.5)).as_slice(), floats(&[2.5; 2]));
    assert_eq!(V4::splat(token(), F32(2.5)).as_slice(), floats(&[2.5; 4]));
    assert_eq!(V8::splat(token(), F32(-1.0)).as_slice(), floats(&[-1.0; 8]));
}

#[test]
fn read_takes_the_first_width_scalars() {
    let source = floats(&[1.0, 2.0, 3.0, 4.0, 5.0, 6.0, 7.0, 8.0, 9.0]);
    assert_eq!(V1::read(token(), &source).as_slice(), floats(&[1.0]));
    assert_eq!(V2::read(token(), &source).as_slice(), floats(&[1.0, 2.0]));
    assert_eq!(V4::read(token(), &source).as_slice(), floats(&[1.0, 2.0, 3.0, 4.0]));
    assert_eq!(V8::read(token(), &source).as_slice(), source[..8].to_vec());
}

#[test]
fn write_keeps_what_lies_behind_the_lanes() {
    let v = V4::read(token(), &floats(&[1.0, 2.0, 3.0, 4.0]));
    let mut to = floats(&[9.0; 6]);
    v.write(&mut to);
    assert_eq!(to, floats(&[1.0, 2.0, 3.0, 4.0, 9.0, 9.0]));
    let mut exact = floats(&[0.0]);
    V1::splat(token(), F32(7.0)).write(&mut exact);
    assert_eq!(exact, floats(&[7.0]));
}

#[test]
fn read_then_write_round_trips() {
    let source = floats(&[0.5, -1.5, 2.25, 8.0, 16.0, -32.0, 64.0, 128.0, 256.0]);
    let mut to = floats(&[0.0; 10]);
    V8::read(token(), &source).write(&mut to);
    assert_eq!(to[..8], source[..8]);
    assert_eq!(to[8..], floats(&[0.0, 0.0])[..]);
}

#[test]
fn underlying_round_trips() {
    let v = V4::read(token(), &floats(&[1.0, 2.0, 3.0, 4.0]));
    let under = v.to_underlying();
    assert_eq!(under, [[F32(1.0), F32(2.0)], [F32(3.0), F32(4.0)]]);
    assert_eq!(V4::from_underlying(token(), under).as_slice(), v.as_slice());
    assert_eq!(V1::from_underlying(token(), F32(6.0)).to_underlying(), F32(6.0));
}

#[test]
fn elementwise_operations_act_lane_by_lane() {
    let a = V4::read(token(), &floats(&[8.0, 6.0, 4.0, 2.0]));
    let b = V4::read(token(), &floats(&[2.0, 3.0, 4.0, 8.0]));
    assert_eq!(a.add(b).as_slice(), floats(&[10.0, 9.0, 8.0, 10.0]));
    assert_eq!(a.sub(b).as_slice(), floats(&[6.0, 3.0, 0.0, -6.0]));
    assert_eq!(a.mul(b).as_slice(), floats(&[16.0, 18.0, 16.0, 16.0]));
    assert_eq!(a.div(b).as_slice(), floats(&[4.0, 2.0, 1.0, 0.25]));
}

#[test]
fn scalar_operations_use_one_scalar_for_every_lane() {
    let a = V4::read(token(), &floats(&[8.0, 6.0, 4.0, 2.0]));
    assert_eq!(a.add_scalar(F32(2.0)).as_slice(), floats(&[10.0, 8.0, 6.0, 4.0]));
    assert_eq!(a.sub_scalar(F32(2.0)).as_slice(), floats(&[6.0, 4.0, 2.0, 0.0]));
    assert_eq!(a.mul_scalar(F32(2.0)).as_slice(), floats(&[16.0, 12.0, 8.0, 4.0]));
    assert_eq!(a.div_scalar(F32(2.0)).as_slice(), floats(&[4.0, 3.0, 2.0, 1.0]));
}

#[test]
fn in_place_forms_agree_with_value_forms() {
    let a = V8::read(token(), &floats(&[8.0, 6.0, 4.0, 2.0, 1.0, 0.5, -3.0, 7.0]));
    let b = V8::read(token(), &floats(&[2.0, 3.0, 4.0, 8.0, 4.0, 0.25, 1.5, -7.0]));
    let mut sum = a;
    sum.add_assign(b);
    assert_eq!(sum.as_slice(), a.add(b).as_slice());
    let mut difference = a;
    difference.sub_assign(b);
    assert_eq!(difference.as_slice(), a.sub(b).as_slice());
    let mut product = a;
    product.mul_assign(b);
    assert_eq!(product.as_slice(), a.mul(b).as_slice());
    let mut quotient = a;
    quotient.div_assign(b);
    assert_eq!(quotient.as_slice(), a.div(b).as_slice());
    let mut scaled = a;
    scaled.mul_assign_scalar(F32(3.0));
    assert_eq!(scaled.as_slice(), a.mul_scalar(F32(3.0)).as_slice());
    let mut shifted = a;
    shifted.add_assign_scalar(F32(3.0));
    assert_eq!(shifted.as_slice(), a.add_scalar(F32(3.0)).as_slice());
    let mut lowered = a;
    lowered.sub_assign_scalar(F32(3.0));
    assert_eq!(lowered.as_slice(), a.sub_scalar(F32(3.0)).as_slice());
    let mut shrunk = a;
    shrunk.div_assign_scalar(F32(4.0));
    assert_eq!(shrunk.as_slice(), a.div_scalar(F32(4.0)).as_slice());
    assert_eq!(shrunk.as_slice()[0], F32(2.0));
}

#[test]
fn negation_flips_every_lane() {
    let a = V4::read(token(), &floats(&[8.0, -6.0, 0.5, 2.0]));
    assert_eq!(a.neg().as_slice(), floats(&[-8.0, 6.0, -0.5, -2.0]));
}

#[test]
fn composite_holds_low_half_then_high_half() {
    let low = V2::read(token(), &floats(&[1.0, 2.0]));
    let high = V2::read(token(), &floats(&[3.0, 4.0]));
    let both: Shim4<Single<F32>, F32> = Shim2::from_halves(low, high);
    assert_eq!(both.as_slice(), floats(&[1.0, 2.0, 3.0, 4.0]));
    let (first, second) = both.into_halves();
    assert_eq!(first.as_slice(), low.as_slice());
    assert_eq!(second.as_slice(), high.as_slice());
}

#[test]
fn composition_nests_to_eight_lanes() {
    let low = V4::read(token(), &floats(&[1.0, 2.0, 3.0, 4.0]));
    let high = V4::read(token(), &floats(&[5.0, 6.0, 7.0, 8.0]));
    let all: Shim8<Single<F32>, F32> = Shim2::from_halves(low, high);
    assert_eq!(all.as_slice(), floats(&[1.0, 2.0, 3.0, 4.0, 5.0, 6.0, 7.0, 8.0]));
    let (front, _) = all.into_halves();
    let (_, second_quarter) = front.into_halves();
    assert_eq!(second_quarter.as_slice(), floats(&[3.0, 4.0]));
}

#[test]
fn sum_of_no_vectors_is_zero() {
    let none: [V2; 0] = [];
    assert_eq!(Sum::sum(&none), F32(0.0));
    assert!(Sum::vectors(&none).is_none());
}

#[test]
fn product_of_no_vectors_is_one() {
    let none: [V2; 0] = [];
    assert_eq!(Product::product(&none), F32(1.0));
    assert!(Product::vectors(&none).is_none());
}

#[test]
fn sum_folds_vectors_then_lanes() {
    let items = [
        V2::read(token(), &floats(&[1.0, 2.0])),
        V2::read(token(), &floats(&[3.0, 4.0])),
        V2::read(token(), &floats(&[5.0, 6.0])),
    ];
    assert_eq!(Sum::vectors(&items).unwrap().as_slice(), floats(&[9.0, 12.0]));
    assert_eq!(Sum::sum(&items), F32(21.0));
    assert_eq!(Sum::lanes(items[2]), F32(11.0));
}

#[test]
fn sum_keeps_the_two_stage_order() {
    let items = [
        V2::read(token(), &floats(&[1.0e8, 1.0])),
        V2::read(token(), &floats(&[-1.0e8, 1.0])),
    ];
    let left_to_right = ((1.0e8f32 + 1.0) + -1.0e8) + 1.0;
    assert_eq!(left_to_right, 1.0);
    assert_eq!(Sum::sum(&items), F32(2.0));
}

#[test]
fn product_folds_vectors_then_lanes() {
    let items = [
        V2::read(token(), &floats(&[2.0, 3.0])),
        V2::read(token(), &floats(&[4.0, 5.0])),
    ];
    assert_eq!(Product::vectors(&items).unwrap().as_slice(), floats(&[8.0, 15.0]));
    assert_eq!(Product::product(&items), F32(120.0));
    assert_eq!(Product::lanes(items[1]), F32(20.0));
}

#[test]
fn reductions_work_on_one_lane_vectors() {
    let items = [V1::splat(token(), F32(2.0)), V1::splat(token(), F32(5.0))];
    assert_eq!(Sum::sum(&items), F32(7.0));
    assert_eq!(Product::product(&items), F32(10.0));
}

#[test]
fn a_vector_gives_its_token_back() {
    let v = V8::zeroed(token());
    let again = v.to_token();
    assert_eq!(V1::splat(again, F32(1.0)).as_slice(), floats(&[1.0]));
    let unchecked = Generic::new_unchecked().to_generic();
    assert_eq!(V2::splat(unchecked, F32(1.0)).as_slice(), floats(&[1.0, 1.0]));
}

#[test]
fn lanes_are_read_and_replaced_one_by_one() {
    let mut v = V8::read(token(), &floats(&[1.0, 2.0, 3.0, 4.0, 5.0, 6.0, 7.0, 8.0]));
    assert_eq!(v.lane(0), F32(1.0));
    assert_eq!(v.lane(3), F32(4.0));
    assert_eq!(v.lane(4), F32(5.0));
    assert_eq!(v.lane(7), F32(8.0));
    v.set_lane(5, F32(-6.0));
    v.set_lane(0, F32(-1.0));
    assert_eq!(v.as_slice(), floats(&[-1.0, 2.0, 3.0, 4.0, 5.0, -6.0, 7.0, 8.0]));
    let mut one = V1::zeroed(token());
    one.set_lane(0, F32(9.0));
    assert_eq!(one.lane(0), F32(9.0));
}
