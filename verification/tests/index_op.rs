use linalgz::{Num, Sqrt, Vector};

#[derive(Debug, Clone, Copy, PartialEq)]
struct R32(f32);

impl Sqrt for R32 {
    fn sqrt_spec(self) -> Self {
        R32(self.0.sqrt())
    }
    fn sqrt(self) -> Self {
        R32(self.0.sqrt())
    }
}

impl Num for R32 {
    fn zero_spec() -> Self {
        R32(0.0)
    }
    fn add_spec(self, o: Self) -> Self {
        R32(self.0 + o.0)
    }
    fn sub_spec(self, o: Self) -> Self {
        R32(self.0 - o.0)
    }
    fn mul_spec(self, o: Self) -> Self {
        R32(self.0 * o.0)
    }
    fn div_spec(self, o: Self) -> Self {
        R32(self.0 / o.0)
    }
    fn zero() -> Self {
        R32(0.0)
    }
    fn add(self, o: Self) -> Self {
        R32(self.0 + o.0)
    }
    fn sub(self, o: Self) -> Self {
        R32(self.0 - o.0)
    }
    fn mul(self, o: Self) -> Self {
        R32(self.0 * o.0)
    }
    fn div(self, o: Self) -> Self {
        R32(self.0 / o.0)
    }
    fn mul_commutes(_: Self, _: Self) {}
    fn sqrt_of_zero() {}
}

#[derive(Debug, Clone, Copy, PartialEq)]
struct R64(f64);

impl Sqrt for R64 {
    fn sqrt_spec(self) -> Self {
        R64(self.0.sqrt())
    }
    fn sqrt(self) -> Self {
        R64(self.0.sqrt())
    }
}

impl Num for R64 {
    fn zero_spec() -> Self {
        R64(0.0)
    }
    fn add_spec(self, o: Self) -> Self {
        R64(self.0 + o.0)
    }
    fn sub_spec(self, o: Self) -> Self {
        R64(self.0 - o.0)
    }
    fn mul_spec(self, o: Self) -> Self {
        R64(self.0 * o.0)
    }
    fn div_spec(self, o: Self) -> Self {
        R64(self.0 / o.0)
    }
    fn zero() -> Self {
        R64(0.0)
    }
    fn add(self, o: Self) -> Self {
        R64(self.0 + o.0)
    }
    fn sub(self, o: Self) -> Self {
        R64(self.0 - o.0)
    }
    fn mul(self, o: Self) -> Self {
        R64(self.0 * o.0)
    }
    fn div(self, o: Self) -> Self {
        R64(self.0 / o.0)
    }
    fn mul_commutes(_: Self, _: Self) {}
    fn sqrt_of_zero() {}
}

#[test]
fn index_ok() {
    let (x, y, z) = (1., 2., 3.);

    let v: Vector<R32> = Vector::new(vec![R32(x), R32(y), R32(z)]);

    let got = *v.index(0).unwrap();
    let expect = R32(x);
    assert_eq!(expect, got);
}
