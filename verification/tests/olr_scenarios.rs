//! End-to-end overlap-rate scenarios: the floating-point shell below samples
//! mixture densities with statrs and hands their bit patterns to the
//! verified core, exactly as a caller of this library is meant to.

use moebius::adapter::Mixture;
use moebius::error::DistributionError;
use moebius::error::OlrError;
use moebius::pairs::pair_list;
use moebius::verdict::pair_verdict;
use moebius::verdict::Verdict;
use nalgebra::DVector;
use statrs::distribution::Continuous;
use statrs::distribution::MultivariateNormal;
use statrs::StatsError;

fn bits_of(v: &[f64]) -> Vec<u64> {
    v.iter().map(|x| x.to_bits()).collect()
}

fn pdf_mvn(x: &[f64], mean: &[f64], cov: &[Vec<f64>]) -> Result<f64, StatsError> {
    let flat: Vec<f64> = cov.iter().flat_map(|row| row.iter().copied()).collect();
    let mvn = MultivariateNormal::new(mean.to_vec(), flat)?;
    Ok(mvn.pdf(&DVector::from_vec(x.to_vec())))
}

fn mixture_density(
    x: &[f64],
    w: (f64, f64),
    means: (&[f64], &[f64]),
    covs: (&[Vec<f64>], &[Vec<f64>]),
) -> Result<f64, StatsError> {
    let mut p = 0.0;
    p += w.0 * pdf_mvn(x, means.0, covs.0)?;
    p += w.1 * pdf_mvn(x, means.1, covs.1)?;
    Ok(p)
}

fn olr(w: Vec<f64>, means: Vec<Vec<f64>>, covs: Vec<Vec<Vec<f64>>>) -> Result<Vec<f64>, OlrError> {
    let mix = Mixture::new(
        bits_of(&w),
        means.iter().map(|r| bits_of(r)).collect(),
        covs.iter().map(|s| s.iter().map(|r| bits_of(r)).collect()).collect(),
    )
    .map_err(OlrError::Shape)?;
    let n = mix.n_components();
    let dim = mix.dimension();

    let mut olr_values = Vec::new();
    for (i, j) in pair_list(n) {
        let delta: Vec<f64> =
            (0..dim).map(|c| (means[j][c] - means[i][c]) * 1.0 / 1000.0).collect();
        let start: Vec<f64> = (0..dim).map(|c| means[i][c] - 10.0 * delta[c]).collect();
        let mut points = vec![start.clone()];
        let mut curr = start;
        for _ in 0..1030 {
            let next: Vec<f64> = (0..dim).map(|c| curr[c] + delta[c]).collect();
            curr = next.clone();
            points.push(next);
        }

        let w1_new = w[i] / (w[i] + w[j]);
        let w2_new = 1.0 - w1_new;

        let mut densities: Vec<u64> = Vec::with_capacity(points.len());
        for p in &points {
            let d = mixture_density(
                p,
                (w1_new, w2_new),
                (&means[i], &means[j]),
                (&covs[i], &covs[j]),
            )
            .map_err(|_| OlrError::Distribution(DistributionError { i, j }))?;
            densities.push(d.to_bits());
        }

        let value = match pair_verdict(&densities).unwrap() {
            Verdict::Full => 1.0,
            Verdict::Ratio { saddle, min_peak } => {
                f64::from_bits(saddle) / f64::from_bits(min_peak)
            }
        };
        olr_values.push(value);
    }
    Ok(olr_values)
}

#[test]
fn two_comps_two_dims() {
    let w = vec![5.2194e-01, 4.7806e-01];
    let means = vec![vec![1.1987e+00, 1.1542e+00], vec![4.1592e+00, 4.1487e+00]];
    let covs = vec![
        vec![vec![1.9455e+00, -9.1612e-04], vec![-9.1612e-04, 1.9703e+00]],
        vec![vec![1.5160e+00, 1.1011e+00], vec![1.1011e+00, 1.5178e+00]],
    ];

    let got = olr(w, means, covs).unwrap()[0];
    assert!((got - 0.9205257521646449f64).abs() <= 1e-4);
}

#[test]
fn two_comps_one_dim() {
    let w = vec![0.5, 0.5];
    let means = vec![vec![5.0], vec![2.0]];
    let covs = vec![vec![vec![0.5]], vec![vec![0.5]]];

    let got = olr(w, means, covs).unwrap()[0];
    assert!((got - 0.21077243773848037f64).abs() <= 1e-4);
}

#[test]
fn three_comps_two_dims() {
    let w = vec![5.2194e-01, 4.7806e-01, 5.2194e-01];
    let means = vec![
        vec![1.1987e+00, 1.1542e+00],
        vec![4.1592e+00, 4.1487e+00],
        vec![4.1592e+00, 4.1487e+00],
    ];
    let covs = vec![
        vec![vec![1.9455e+00, -9.1612e-04], vec![-9.1612e-04, 1.9703e+00]],
        vec![vec![1.5160e+00, 1.1011e+00], vec![1.1011e+00, 1.5178e+00]],
        vec![vec![1.5160e+00, 1.1009e+00], vec![1.1009e+00, 1.5178e+00]],
    ];

    let olrs = olr(w, means, covs).unwrap();

    assert!((olrs[0] - 0.9205257521646449f64).abs() <= 1e-4);
    assert!((olrs[1] - 0.9464977842655895f64).abs() <= 1e-4);
    assert!((olrs[2] - 1.0f64).abs() <= 1e-4);
}

#[test]
#[should_panic]
fn singular_0() {
    let w = vec![0.2, 0.2];
    let means = vec![vec![6f64], vec![11f64]];
    let covs = vec![vec![vec![-0.006577556145946767]], vec![vec![0.5448831829968969]]];

    olr(w, means, covs).unwrap();
}

#[test]
#[should_panic]
fn singular_1() {
    let w = vec![0.22222222, 0.77777778];
    let means = vec![
        vec![
            18.83333334, 18.16666668, 24.16666662, 41.83333333, 84.16666664, 44.16666665,
            41.33333325, 69.33333339, 40.83333336,
        ],
        vec![
            42.57142856, 45.19047617, 47.95238095, 53.47619047, 49.28571431, 40.23809524,
            52.00000002, 55.04761904, 43.28571428,
        ],
    ];
    let covs = vec![
        vec![
            vec![
                219.8055559, -6.63888894, -89.4722222, -232.02777816, -132.47222233,
                124.52777804, 150.05555611, 140.3888889, 82.63888893,
            ],
            vec![
                -6.63888894, 134.47222238, 41.3055559, 147.6944447, 52.80555583, 108.63888915,
                225.27777864, 158.27777768, 234.86111134,
            ],
            vec![
                -89.4722222, 41.3055559, 241.80555476, 168.86111134, 134.30555498, -22.3611115,
                287.61110946, -105.72222082, 49.52777857,
            ],
            vec![
                -232.02777816, 147.6944447, 168.86111134, 850.1388903, 359.36111168,
                -451.97222299, -149.94444479, -267.44444482, 301.97222276,
            ],
            vec![
                -132.47222233, 52.80555583, 134.30555498, 359.36111168, 266.80555547,
                -34.19444473, 208.94444338, -283.22222164, 37.19444498,
            ],
            vec![
                124.52777804, 108.63888915, -22.3611115, -451.97222299, -34.19444473,
                843.13889019, 905.27777866, 264.94444535, 24.86111136,
            ],
            vec![
                150.05555611, 225.27777864, 287.61110946, -149.94444479, 208.94444338,
                905.27777866, 1593.88888776, 98.2222252, 275.38889061,
            ],
            vec![
                140.3888889, 158.27777768, -105.72222082, -267.44444482, -283.22222164,
                264.94444535, 98.2222252, 682.55555461, 323.3888885,
            ],
            vec![
                82.63888893, 234.86111134, 49.52777857, 301.97222276, 37.19444498, 24.86111136,
                275.38889061, 323.3888885, 523.47222268,
            ],
        ],
        vec![
            vec![
                963.38775501, 395.51020433, -135.73469385, -317.60544189, 167.83673392,
                69.81632634, -171.57142898, -372.40816281, -43.73469362,
            ],
            vec![
                395.51020433, 784.63038564, 17.53287976, -268.51927408, 392.65986292,
                -38.56916117, -87.8571434, -69.29478421, 316.13605456,
            ],
            vec![
                -135.73469385, 17.53287976, 637.66439879, 111.54648519, -20.510204, 57.48752833,
                -190.33333319, -44.6643991, 127.63265297,
            ],
            vec![
                -317.60544189, -268.51927408, 111.54648519, 979.01133745, 52.14965958,
                91.12471645, 20.52380933, 402.83446703, 90.91156467,
            ],
            vec![
                167.83673392, 392.65986292, -20.510204, 52.14965958, 552.39455888, -128.87755066,
                35.71428663, 29.74829878, 302.96598579,
            ],
            vec![
                69.81632634, -38.56916117, 57.48752833, 91.12471645, -128.87755066, 938.84807218,
                -360.76190438, 49.13151913, -229.02040816,
            ],
            vec![
                -171.57142898, -87.8571434, -190.33333319, 20.52380933, 35.71428663,
                -360.76190438, 774.66666695, 121.428571, 398.47618996,
            ],
            vec![
                -372.40816281, -69.29478421, -44.6643991, 402.83446703, 29.74829878, 49.13151913,
                121.428571, 668.14058946, -5.63265288,
            ],
            vec![
                -43.73469362, 316.13605456, 127.63265297, 90.91156467, 302.96598579,
                -229.02040816, 398.47618996, -5.63265288, 835.06122425,
            ],
        ],
    ];

    olr(w, means, covs).unwrap();
}

#[test]
fn rerun_is_bit_identical() {
    let w = vec![0.5, 0.5];
    let means = vec![vec![5.0], vec![2.0]];
    let covs = vec![vec![vec![0.5]], vec![vec![0.5]]];

    let a = olr(w.clone(), means.clone(), covs.clone()).unwrap();
    let b = olr(w, means, covs).unwrap();
    assert_eq!(bits_of(&a), bits_of(&b));
}

#[test]
fn identical_components_fully_overlap() {
    let w = vec![0.9, 0.1];
    let means = vec![vec![3.0, -1.0], vec![3.0, -1.0]];
    let covs = vec![
        vec![vec![2.0, 0.3], vec![0.3, 1.5]],
        vec![vec![2.0, 0.3], vec![0.3, 1.5]],
    ];

    let olrs = olr(w, means, covs).unwrap();
    assert_eq!(olrs, vec![1.0]);
}

#[test]
fn well_separated_components_barely_overlap() {
    let w = vec![0.5, 0.5];
    let means = vec![vec![0.0], vec![8.0]];
    let covs = vec![vec![vec![0.5]], vec![vec![0.5]]];

    let got = olr(w, means, covs).unwrap()[0];
    assert!(got < 1e-3);
    assert!(got >= 0.0);
}

#[test]
fn pair_count_follows_the_component_count() {
    for n in 0..5usize {
        let w = vec![1.0; n];
        let means: Vec<Vec<f64>> = (0..n).map(|i| vec![i as f64 * 3.0]).collect();
        let covs: Vec<Vec<Vec<f64>>> = (0..n).map(|_| vec![vec![1.0]]).collect();
        let olrs = olr(w, means, covs).unwrap();
        assert_eq!(olrs.len(), n * n.saturating_sub(1) / 2);
    }
}

#[test]
fn degenerate_covariance_is_an_error_not_a_number() {
    let w = vec![0.5, 0.5, 0.5];
    let means = vec![vec![0.0], vec![1.0], vec![2.0]];

    // A negative eigenvalue at component 2: first reached by the pair (0, 2).
    let covs = vec![vec![vec![0.5]], vec![vec![0.5]], vec![vec![-1.0]]];
    let err = olr(w.clone(), means.clone(), covs).unwrap_err();
    assert_eq!(err, OlrError::Distribution(DistributionError { i: 0, j: 2 }));

    // A zero eigenvalue is just as degenerate.
    let covs = vec![vec![vec![0.5]], vec![vec![0.0]], vec![vec![0.5]]];
    let err = olr(w, means, covs).unwrap_err();
    assert_eq!(err, OlrError::Distribution(DistributionError { i: 0, j: 1 }));
}
