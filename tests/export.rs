use num_bigint::BigUint;
use solidity_export::context::{build_verifier_context, ExportError, VerifierParams};
use solidity_export::encode::{
    encode_g1, encode_g1_list, encode_g2, encode_neg_g2, g2_evm_halves, g2_native_of_evm,
    neg_g2, EncodeError, G1Point, G2Point,
};
use solidity_export::field::{fq_neg_bytes, sub_le};
use solidity_export::seed::{init_scalar, length_prefix, seed_from_digest};
use solidity_export::shape::{chunk_count_exec, structural_counts, ShapeError, StructuralCounts, VkShape};
use solidity_export::transcript::{SolidityShaRead, SolidityShaSelector, SolidityTranscript, TranscriptError};

const P_MINUS_1: &str =
    "21888242871839275222246405745257275088696311157297823662689037894645226208582";

fn le32(dec: &str) -> Vec<u8> {
    let mut b = BigUint::parse_bytes(dec.as_bytes(), 10).unwrap().to_bytes_le();
    b.resize(32, 0);
    b
}

fn fq2(c0: &str, c1: &str) -> Vec<u8> {
    let mut b = le32(c0);
    b.extend(le32(c1));
    b
}

fn g2_generator() -> G2Point {
    G2Point::Affine {
        x: fq2(
            "10857046999023057135944570762232829481370756359578518086990519993285655852781",
            "11559732032986387107991004021392285783925812861821192530917403151452391805634",
        ),
        y: fq2(
            "8495653923123431417604973247489272438418190587263600148770280649306958101930",
            "4082367875863433681332203403145435568316851327593401208105741076214120093531",
        ),
    }
}

fn g1_generator() -> G1Point {
    G1Point::Affine { x: le32("1"), y: le32("2") }
}

fn shape(pinned: &str) -> VkShape {
    VkShape {
        num_advice_columns: 1,
        lookups: 0,
        permutation_columns: 1,
        cs_degree: 5,
        quotient_poly_degree: 4,
        instance_queries: 1,
        advice_queries: 1,
        fixed_queries: 1,
        permutation_commitments: 1,
        pinned: pinned.to_string(),
    }
}

#[test]
fn evaluation_count_formula() {
    let vk = VkShape {
        num_advice_columns: 2,
        lookups: 3,
        permutation_columns: 5,
        cs_degree: 5,
        quotient_poly_degree: 4,
        instance_queries: 1,
        advice_queries: 5,
        fixed_queries: 2,
        permutation_commitments: 2,
        pinned: String::new(),
    };
    let c = structural_counts(&vk).unwrap();
    assert_eq!(
        c,
        StructuralCounts { n_advice: 2, lookups: 3, permutation_products: 2, degree: 4, evals: 1 + 5 + 2 + 1 + 2 + 3 * 2 - 1 + 5 * 3 }
    );
}

#[test]
fn permutation_chunks_round_up() {
    assert_eq!(chunk_count_exec(0, 3), 0);
    assert_eq!(chunk_count_exec(3, 3), 1);
    assert_eq!(chunk_count_exec(4, 3), 2);
    assert_eq!(chunk_count_exec(7, 1), 7);
}

#[test]
fn degree_below_three_is_rejected() {
    let mut vk = shape("k");
    vk.cs_degree = 2;
    assert_eq!(structural_counts(&vk), Err(ShapeError::DegreeTooSmall));
}

#[test]
fn evaluation_count_overflow_is_rejected() {
    let mut vk = shape("k");
    vk.instance_queries = usize::MAX;
    vk.advice_queries = usize::MAX;
    assert_eq!(structural_counts(&vk), Err(ShapeError::Overflow));
}

#[test]
fn g2_halves_are_swapped() {
    let p = G2Point::Affine { x: fq2("1", "2"), y: fq2("258", "256") };
    let e = encode_g2(&p).unwrap();
    assert_eq!(e.x0, "2");
    assert_eq!(e.x1, "1");
    assert_eq!(e.y0, "256");
    assert_eq!(e.y1, "258");
}

#[test]
fn g2_generator_in_precompile_order() {
    let e = encode_g2(&g2_generator()).unwrap();
    assert_eq!(e.x0, "11559732032986387107991004021392285783925812861821192530917403151452391805634");
    assert_eq!(e.x1, "10857046999023057135944570762232829481370756359578518086990519993285655852781");
    assert_eq!(e.y0, "4082367875863433681332203403145435568316851327593401208105741076214120093531");
    assert_eq!(e.y1, "8495653923123431417604973247489272438418190587263600148770280649306958101930");
}

#[test]
fn evm_halves_round_trip() {
    let native = fq2("123456789", "987654321");
    let (h0, h1) = g2_evm_halves(&native);
    assert_eq!(h0, le32("987654321"));
    assert_eq!(h1, le32("123456789"));
    assert_eq!(g2_native_of_evm(&h0, &h1), native);
}

#[test]
fn g1_encoding_is_decimal() {
    let e = encode_g1(&G1Point::Affine { x: le32("65535"), y: le32(P_MINUS_1) }).unwrap();
    assert_eq!(e.x, "65535");
    assert_eq!(e.y, P_MINUS_1);
    let z = encode_g1(&G1Point::Affine { x: le32("0"), y: le32("2") }).unwrap();
    assert_eq!(z.x, "0");
}

#[test]
fn identity_points_are_rejected() {
    assert_eq!(encode_g1(&G1Point::Identity).unwrap_err(), EncodeError::PointAtInfinity);
    assert_eq!(encode_g2(&G2Point::Identity).unwrap_err(), EncodeError::PointAtInfinity);
    assert_eq!(encode_neg_g2(&G2Point::Identity).unwrap_err(), EncodeError::PointAtInfinity);
    let list = vec![g1_generator(), G1Point::Identity];
    assert_eq!(encode_g1_list(&list).unwrap_err(), EncodeError::PointAtInfinity);
}

#[test]
fn field_negation() {
    assert_eq!(fq_neg_bytes(&le32("1")), le32(P_MINUS_1));
    assert_eq!(fq_neg_bytes(&le32("0")), le32("0"));
    assert_eq!(sub_le(&vec![0, 1], &vec![1, 0]), vec![255, 0]);
}

#[test]
fn negated_g2_negates_y() {
    let p = G2Point::Affine { x: fq2("5", "6"), y: fq2("1", "0") };
    match neg_g2(&p) {
        G2Point::Affine { x, y } => {
            assert_eq!(x, fq2("5", "6"));
            assert_eq!(y, fq2(P_MINUS_1, "0"));
        }
        G2Point::Identity => panic!("negation of an affine point is affine"),
    }
    let e = encode_neg_g2(&p).unwrap();
    assert_eq!(e.x0, "6");
    assert_eq!(e.x1, "5");
    assert_eq!(e.y0, "0");
    assert_eq!(e.y1, P_MINUS_1);
}

#[test]
fn length_prefix_is_little_endian() {
    assert_eq!(length_prefix(b"abc"), vec![3, 0, 0, 0, 0, 0, 0, 0, 97, 98, 99]);
    let long = vec![7u8; 258];
    let p = length_prefix(&long);
    assert_eq!(&p[..8], &[2, 1, 0, 0, 0, 0, 0, 0]);
    assert_eq!(p.len(), 266);
}

#[test]
fn digest_reduced_modulo_scalar_field() {
    assert_eq!(
        seed_from_digest(&vec![0xff; 64]),
        "944936681149208446651664254269745548490766851729442924617792859073125903782"
    );
    assert_eq!(seed_from_digest(&vec![5]), "5");
}

#[test]
fn seed_of_known_descriptions() {
    assert_eq!(
        init_scalar(&shape("toy-circuit")),
        "5102651385921439199974255423275721917142553724159766812909548666641240673708"
    );
    assert_eq!(
        init_scalar(&shape("")),
        "18341325281647511491127929811159313605035536963850221099775750995379185324562"
    );
}

#[test]
fn seed_is_deterministic_and_ignores_counts() {
    let a = shape("toy-circuit");
    let mut b = shape("toy-circuit");
    b.num_advice_columns = 9;
    b.lookups = 4;
    assert_eq!(init_scalar(&a), init_scalar(&a));
    assert_eq!(init_scalar(&a), init_scalar(&b));
    assert_ne!(init_scalar(&a), init_scalar(&shape("other-circuit")));
}

fn root_of_unity() -> Vec<u8> {
    le32("1748695177688661943023146337482803886740723238769601073607632802312037301404")
}

#[test]
fn null_transcript_returns_fixed_values() {
    let mut t = SolidityShaRead::init();
    for _ in 0..3 {
        assert!(matches!(t.read_point(), Ok(G1Point::Identity)));
        assert_eq!(t.read_scalar(), Ok(root_of_unity()));
        assert_eq!(t.squeeze_challenge(), vec![0u8; 32]);
        assert_eq!(t.common_point(g1_generator()), Ok(()));
        assert_eq!(t.common_scalar(le32("3")), Ok(()));
    }
    assert_eq!(t, SolidityShaRead::init());
}

#[test]
fn selector_forwards_to_chosen_variant() {
    let mut direct = SolidityShaRead::init();
    let mut real: SolidityShaSelector<SolidityShaRead> =
        SolidityShaSelector::ShaRead(SolidityShaRead::init());
    let mut null: SolidityShaSelector<SolidityShaRead> =
        SolidityShaSelector::SolidityShaRead(SolidityShaRead::init());
    for _ in 0..2 {
        let expected_scalar: Result<Vec<u8>, TranscriptError> = direct.read_scalar();
        assert_eq!(real.read_scalar(), expected_scalar);
        assert_eq!(null.read_scalar(), expected_scalar);
        let c = direct.squeeze_challenge();
        assert_eq!(real.squeeze_challenge(), c);
        assert_eq!(null.squeeze_challenge(), c);
        assert!(matches!(real.read_point(), Ok(G1Point::Identity)));
        assert!(matches!(null.read_point(), Ok(G1Point::Identity)));
        assert_eq!(real.common_scalar(le32("1")), Ok(()));
        assert_eq!(null.common_point(g1_generator()), Ok(()));
    }
}

fn toy_params() -> VerifierParams {
    VerifierParams { g2: g2_generator(), s_g2: g2_generator(), g_lagrange: vec![g1_generator()] }
}

#[test]
fn toy_verifier_context() {
    let vk = shape("toy-circuit");
    let c = build_verifier_context(&toy_params(), &toy_params(), &vk).unwrap();
    assert_eq!(c.n_advice, 1);
    assert_eq!(c.lookups, 0);
    assert_eq!(c.permutation_products, 1);
    assert_eq!(c.degree, 4);
    assert_eq!(c.evals, 1 + 1 + 1 + 1 + 1 + 3 - 1);
    assert_eq!(c.target_circuit_s_g2.x0, "11559732032986387107991004021392285783925812861821192530917403151452391805634");
    assert_eq!(c.target_circuit_s_g2.x1, "10857046999023057135944570762232829481370756359578518086990519993285655852781");
    assert_eq!(c.target_circuit_s_g2.y0, "4082367875863433681332203403145435568316851327593401208105741076214120093531");
    assert_eq!(c.target_circuit_s_g2.y1, "8495653923123431417604973247489272438418190587263600148770280649306958101930");
    assert_eq!(c.target_circuit_n_g2.x0, c.target_circuit_s_g2.x0);
    assert_eq!(c.target_circuit_n_g2.y0, "17805874995975841540914202342111839520379459829704422454583296818431106115052");
    assert_eq!(c.target_circuit_n_g2.y1, "13392588948715843804641432497768002650278120570034223513918757245338268106653");
    assert_eq!(c.verify_circuit_lagrange_commitments.len(), 1);
    assert_eq!(c.verify_circuit_lagrange_commitments[0].x, "1");
    assert_eq!(c.verify_circuit_lagrange_commitments[0].y, "2");
    assert_eq!(c.target_circuit_lagrange_commitments[0].y, "2");
    assert_eq!(c.init_scalar, init_scalar(&vk));
}

#[test]
fn context_errors() {
    let vk = shape("toy-circuit");
    let mut bad = toy_params();
    bad.g_lagrange.push(G1Point::Identity);
    assert_eq!(
        build_verifier_context(&toy_params(), &bad, &vk).unwrap_err(),
        ExportError::Encode(EncodeError::PointAtInfinity)
    );
    let mut low = vk.clone();
    low.cs_degree = 1;
    assert_eq!(
        build_verifier_context(&toy_params(), &toy_params(), &low).unwrap_err(),
        ExportError::Shape(ShapeError::DegreeTooSmall)
    );
}
