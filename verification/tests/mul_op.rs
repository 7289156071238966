use linalgz::{Num, Sqrt, Vector};
use num_complex::Complex;

#[derive(Debug, Clone, Copy, PartialEq)]
struct R32(f32);

impl Sqrt for R32 {
    fn sqrt_spec(self) -> Self {
        R32(self.0.sqrt())
    }
    fn sqrt(self) -> Self {
        R32(self.0.sqrt())
    }
}

impl Num for R32 {
    fn zero_spec() -> Self {
        R32(0.0)
    }
    fn add_spec(self, o: Self) -> Self {
        R32(self.0 + o.0)
    }
    fn sub_spec(self, o: Self) -> Self {
        R32(self.0 - o.0)
    }
    fn mul_spec(self, o: Self) -> Self {
        R32(self.0 * o.0)
    }
    fn div_spec(self, o: Self) -> Self {
        R32(self.0 / o.0)
    }
    fn zero() -> Self {
        R32(0.0)
    }
    fn add(self, o: Self) -> Self {
        R32(self.0 + o.0)
    }
    fn sub(self, o: Self) -> Self {
        R32(self.0 - o.0)
    }
    fn mul(self, o: Self) -> Self {
        R32(self.0 * o.0)
    }
    fn div(self, o: Self) -> Self {
        R32(self.0 / o.0)
    }
    fn mul_commutes(_: Self, _: Self) {}
    fn sqrt_of_zero() {}
}

#[derive(Debug, Clone, Copy, PartialEq)]
struct R64(f64);

impl Sqrt for R64 {
    fn sqrt_spec(self) -> Self {
        R64(self.0.sqrt())
    }
    fn sqrt(self) -> Self {
        R64(self.0.sqrt())
    }
}

impl Num for R64 {
    fn zero_spec() -> Self {
        R64(0.0)
    }
    fn add_spec(self, o: Self) -> Self {
        R64(self.0 + o.0)
    }
    fn sub_spec(self, o: Self) -> Self {
        R64(self.0 - o.0)
    }
    fn mul_spec(self, o: Self) -> Self {
        R64(self.0 * o.0)
    }
    fn div_spec(self, o: Self) -> Self {
        R64(self.0 / o.0)
    }
    fn zero() -> Self {
        R64(0.0)
    }
    fn add(self, o: Self) -> Self {
        R64(self.0 + o.0)
    }
    fn sub(self, o: Self) -> Self {
        R64(self.0 - o.0)
    }
    fn mul(self, o: Self) -> Self {
        R64(self.0 * o.0)
    }
    fn div(self, o: Self) -> Self {
        R64(self.0 / o.0)
    }
    fn mul_commutes(_: Self, _: Self) {}
    fn sqrt_of_zero() {}
}

#[derive(Debug, Clone, Copy, PartialEq)]
struct C32(Complex<f32>);

impl Sqrt for C32 {
    fn sqrt_spec(self) -> Self {
        C32(self.0.sqrt())
    }
    fn sqrt(self) -> Self {
        C32(self.0.sqrt())
    }
}

impl Num for C32 {
    fn zero_spec() -> Self {
        C32(Complex::new(0.0, 0.0))
    }
    fn add_spec(self, o: Self) -> Self {
        C32(self.0 + o.0)
    }
    fn sub_spec(self, o: Self) -> Self {
        C32(self.0 - o.0)
    }
    fn mul_spec(self, o: Self) -> Self {
        C32(self.0 * o.0)
    }
    fn div_spec(self, o: Self) -> Self {
        C32(self.0 / o.0)
    }
    fn zero() -> Self {
        C32(Complex::new(0.0, 0.0))
    }
    fn add(self, o: Self) -> Self {
        C32(self.0 + o.0)
    }
    fn sub(self, o: Self) -> Self {
        C32(self.0 - o.0)
    }
    fn mul(self, o: Self) -> Self {
        C32(self.0 * o.0)
    }
    fn div(self, o: Self) -> Self {
        C32(self.0 / o.0)
    }
    fn mul_commutes(_: Self, _: Self) {}
    fn sqrt_of_zero() {}
}

#[derive(Debug, Clone, Copy, PartialEq)]
struct C64(Complex<f64>);

impl Sqrt for C64 {
    fn sqrt_spec(self) -> Self {
        C64(self.0.sqrt())
    }
    fn sqrt(self) -> Self {
        C64(self.0.sqrt())
    }
}

impl Num for C64 {
    fn zero_spec() -> Self {
        C64(Complex::new(0.0, 0.0))
    }
    fn add_spec(self, o: Self) -> Self {
        C64(self.0 + o.0)
    }
    fn sub_spec(self, o: Self) -> Self {
        C64(self.0 - o.0)
    }
    fn mul_spec(self, o: Self) -> Self {
        C64(self.0 * o.0)
    }
    fn div_spec(self, o: Self) -> Self {
        C64(self.0 / o.0)
    }
    fn zero() -> Self {
        C64(Complex::new(0.0, 0.0))
    }
    fn add(self, o: Self) -> Self {
        C64(self.0 + o.0)
    }
    fn sub(self, o: Self) -> Self {
        C64(self.0 - o.0)
    }
    fn mul(self, o: Self) -> Self {
        C64(self.0 * o.0)
    }
    fn div(self, o: Self) -> Self {
        C64(self.0 / o.0)
    }
    fn mul_commutes(_: Self, _: Self) {}
    fn sqrt_of_zero() {}
}

#[test]
fn scalar_f32() {
    let v: Vector<R32> = Vector::new(vec![R32(1.), R32(2.), R32(3.)]);
    let s = R32(2.);

    let got = v.scalar_mul(s);
    let expect = Vector::new(vec![R32(2.), R32(4.), R32(6.)]);
    assert_eq!(expect, got);
}

#[test]
fn scalar_f64() {
    let v: Vector<R64> = Vector::new(vec![R64(1.), R64(2.), R64(3.)]);
    let s = R64(2.);

    let got = v.scalar_mul(s);
    let expect = Vector::new(vec![R64(2.), R64(4.), R64(6.)]);
    assert_eq!(expect, got);
}

#[test]
fn scalar_cmplx_f32() {
    let x = Complex::new(1., 3.);
    let y = Complex::new(9., -1.);
    let z = Complex::new(0.32, 18.);

    let v: Vector<C32> = Vector::new(vec![C32(x), C32(y), C32(z)]);
    let s = Complex::new(1.3, 8.3);

    let got = v.scalar_mul(C32(s));
    let expect = Vector::new(vec![C32(x * s), C32(y * s), C32(z * s)]);
    assert_eq!(expect, got);
}

#[test]
fn scalar_cmplx_f64() {
    let x = Complex::new(1., 3.);
    let y = Complex::new(9., -1.);
    let z = Complex::new(0.32, 18.);

    let v: Vector<C64> = Vector::new(vec![C64(x), C64(y), C64(z)]);
    let s = Complex::new(1.3, 8.3);

    let got = v.scalar_mul(C64(s));
    let expect = Vector::new(vec![C64(x * s), C64(y * s), C64(z * s)]);
    assert_eq!(expect, got);
}

#[test]
fn element_wise_f32() {
    let v: Vector<R32> = Vector::new(vec![R32(1.), R32(3.), R32(5.)]);
    let w = Vector::new(vec![R32(2.), R32(2.), R32(3.)]);

    let got = v.mul(&w).unwrap();
    let expect = Vector::new(vec![R32(2.), R32(6.), R32(15.)]);
    assert_eq!(expect, got);
}

#[test]
fn element_wise_f64() {
    let v: Vector<R64> = Vector::new(vec![R64(1.), R64(3.), R64(5.)]);
    let w = Vector::new(vec![R64(2.), R64(2.), R64(3.)]);

    let got = v.mul(&w).unwrap();
    let expect = Vector::new(vec![R64(2.), R64(6.), R64(15.)]);
    assert_eq!(expect, got);
}

#[test]
fn element_wise_complx_f32() {
    let x = Complex::new(1., 3.);
    let y = Complex::new(9., -1.);
    let z = Complex::new(0.32, 18.);

    let v: Vector<C32> = Vector::new(vec![C32(x), C32(y), C32(z)]);
    let w = Vector::new(vec![C32(x), C32(y), C32(z)]);

    let got = v.mul(&w).unwrap();
    let expect = Vector::new(vec![C32(x * x), C32(y * y), C32(z * z)]);
    assert_eq!(expect, got);
}

#[test]
fn element_wise_complx_f64() {
    let x = Complex::new(1., 3.);
    let y = Complex::new(9., -1.);
    let z = Complex::new(0.32, 18.);

    let v: Vector<C64> = Vector::new(vec![C64(x), C64(y), C64(z)]);
    let w = Vector::new(vec![C64(x), C64(y), C64(z)]);

    let got = v.mul(&w).unwrap();
    let expect = Vector::new(vec![C64(x * x), C64(y * y), C64(z * z)]);
    assert_eq!(expect, got);
}
