use num_complex::Complex64;
use olo_rust::{three_point, two_point, ComplexValue, Double, EngineCall, TO_FEYNMAN};

fn double(x: f64) -> Double {
    Double::from_bits(x.to_bits())
}

fn complex(c: Complex64) -> ComplexValue {
    ComplexValue::new(double(c.re), double(c.im))
}

/// Minkowski dot product: (E^2 - px^2 - py^2 - pz^2)
fn minkowski_dot(p: [f64; 4]) -> f64 {
    p[0] * p[0] - (p[1] * p[1] + p[2] * p[2] + p[3] * p[3])
}

#[test]
fn main() {
    // 2-point example (bubble)
    let p = Complex64::new(1.0, 0.0);
    let m1 = Complex64::new(0.5, 0.0);
    let m2 = Complex64::new(0.2, 0.0);
    let result = two_point(double(p.re), complex(m1), complex(m2));
    println!("2-point result: {:?}", result);
    assert_eq!(result, EngineCall::TwoPoint { p: complex(p), m1: complex(m1), m2: complex(m2) });

    // 3-point example (triangle)
    let k1 = [0.005, 0.0, 0.0, 0.005];
    let k2 = [0.005, 0.0, 0.0, -0.005];

    let p1 = Complex64::new(minkowski_dot(k1), 0.0);
    let p2 = Complex64::new(minkowski_dot(k2), 0.0);

    // p3 = (k1 + k2)^2
    let k3 = [k1[0] + k2[0], k1[1] + k2[1], k1[2] + k2[2], k1[3] + k2[3]];
    let p3 = Complex64::new(minkowski_dot(k3), 0.0);

    let m = Complex64::new(0.02, 0.0);

    let m1 = m * m;
    let m2 = m * m;
    let m3 = m * m;

    let result = three_point(
        double(p1.re),
        double(p2.re),
        double(p3.re),
        complex(m1),
        complex(m2),
        complex(m3),
    );
    println!("3-point result: {:?}", result);
    assert_eq!(
        result,
        EngineCall::ThreePoint {
            p1: complex(p1),
            p2: complex(p2),
            p3: complex(p3),
            m1: complex(m1),
            m2: complex(m2),
            m3: complex(m3),
        }
    );
    println!(
        "Interal value in Feynman convention: {:?}",
        Complex64::new(1.0, 0.0) * f64::from_bits(TO_FEYNMAN)
    )
}
