use approx::Relative;
use bindless_sample::descriptor::{Descriptors, MutDesc, RCDesc};
use bindless_sample::fixed::{UVec3, ONE};
use bindless_sample::simple_compute::{add_calculation, dispatch, simple_compute, Indirection, Param};

fn fixed(value: f32) -> i32 {
    (value as f64 * 1e6).round() as i32
}

fn float(wide: i64) -> f32 {
    (wide as f64 / 1e12) as f32
}

struct Buffers {
    b: RCDesc,
    indirection: RCDesc,
    out: MutDesc,
}

/// Sets up the three buffers of a dispatch: `c` is reachable only through
/// the record, since its own handle is given up right away.
fn upload(table: &mut Descriptors, b: &[i32], c: i32) -> Buffers {
    let buffer_b = table.alloc_scalars(b.to_vec());
    let buffer_indirection = {
        let buffer_c = table.alloc_scalar(c);
        let indirection = Indirection { c: buffer_c.to_strong() };
        assert!(table.has_scalar(&indirection.c));
        let buffer_indirection = table.alloc_indirection(indirection);
        assert!(table.owns(&buffer_c));
        table.release(buffer_c);
        buffer_indirection
    };
    let out = table.alloc_output(b.len());
    Buffers { b: buffer_b, indirection: buffer_indirection, out }
}

fn run(table: &mut Descriptors, a: i32, buffers: &Buffers, groups: UVec3) -> Vec<i64> {
    let scope = table.begin_execution().expect("no scope is open");
    let param = Param {
        a,
        b: buffers.b.to_transient(&scope),
        indirection: buffers.indirection.to_transient(&scope),
        out: buffers.out.to_mut_transient(&scope),
    };
    assert!(param.is_valid_for(table, groups.x as usize));
    dispatch(table, groups, &param);
    assert!(table.is_open(&scope));
    table.end_execution(scope);
    assert!(!table.is_recording());
    assert!(table.owns_mut(&buffers.out));
    table.read_output(&buffers.out)
}

#[test]
fn test_simple_compute_ash() {
    let a = 42.2;
    let b = [1., 2., 3.];
    let c = 69.3;
    let len = b.len();

    let mut table = Descriptors::new();
    let fixed_b: Vec<i32> = b.iter().copied().map(fixed).collect();
    let buffers = upload(&mut table, &fixed_b, fixed(c));
    let out = run(&mut table, fixed(a), &buffers, UVec3::new(len as u32, 1, 1));

    let result = out.iter().copied().map(float).collect::<Vec<_>>();
    let expected = b.iter().copied().map(|b: f32| a * b + c).collect::<Vec<_>>();
    println!("result: {:?}", result);
    println!("expected: {:?}", expected);
    assert!(Relative::default().epsilon(0.01).eq(&*result, &*expected));
}

#[test]
fn end_to_end_values() {
    let mut table = Descriptors::new();
    let buffers = upload(&mut table, &[ONE, 2 * ONE, 3 * ONE], 69_300_000);
    let out = run(&mut table, 42_200_000, &buffers, UVec3::new(3, 1, 1));
    assert_eq!(
        out,
        vec![111_500_000_000_000, 153_700_000_000_000, 195_900_000_000_000]
    );
    let result = out.iter().copied().map(float).collect::<Vec<_>>();
    assert!(Relative::default().epsilon(0.01).eq(&*result, &[111.5f32, 153.7, 195.9][..]));
}

#[test]
fn one_lane() {
    let mut table = Descriptors::new();
    let buffers = upload(&mut table, &[-2_500_000], 750_000);
    let out = run(&mut table, 4_000_000, &buffers, UVec3::new(1, 1, 1));
    // 4 * -2.5 + 0.75 = -9.25
    assert_eq!(out, vec![-9_250_000_000_000]);
}

#[test]
fn no_lane() {
    let mut table = Descriptors::new();
    let buffers = upload(&mut table, &[], 5);
    let out = run(&mut table, 7, &buffers, UVec3::new(0, 1, 1));
    assert_eq!(out, Vec::<i64>::new());
}

#[test]
fn lanes_beyond_the_grid_stay_untouched() {
    let mut table = Descriptors::new();
    let buffers = upload(&mut table, &[ONE, ONE, ONE, ONE], ONE);
    let out = run(&mut table, ONE, &buffers, UVec3::new(2, 1, 1));
    assert_eq!(out, vec![2_000_000_000_000, 2_000_000_000_000, 0, 0]);
}

#[test]
fn an_empty_grid_runs_nothing() {
    let mut table = Descriptors::new();
    let buffers = upload(&mut table, &[ONE, ONE], ONE);
    let out = run(&mut table, ONE, &buffers, UVec3::new(2, 0, 1));
    assert_eq!(out, vec![0, 0]);
    let out = run(&mut table, ONE, &buffers, UVec3::new(2, 1, 0));
    assert_eq!(out, vec![0, 0]);
}

#[test]
fn rows_and_layers_repeat_the_lanes() {
    let mut table = Descriptors::new();
    let buffers = upload(&mut table, &[ONE, 2 * ONE], 3 * ONE);
    let out = run(&mut table, 5 * ONE, &buffers, UVec3::new(2, 3, 2));
    assert_eq!(out, vec![8_000_000_000_000, 13_000_000_000_000]);
}

#[test]
fn extreme_scalars_do_not_overflow() {
    assert_eq!(
        add_calculation(i32::MIN, i32::MIN, i32::MAX),
        (1i64 << 62) + (i32::MAX as i64) * 1_000_000
    );
    assert_eq!(
        add_calculation(i32::MIN, i32::MAX, i32::MIN),
        (i32::MIN as i64) * (i32::MAX as i64) + (i32::MIN as i64) * 1_000_000
    );
    assert_eq!(add_calculation(0, 0, 0), 0);
    assert_eq!(add_calculation(2 * ONE, 3 * ONE, ONE), 7_000_000_000_000);
}

#[test]
fn one_lane_of_the_kernel_writes_one_result() {
    let mut table = Descriptors::new();
    let buffers = upload(&mut table, &[ONE, 2 * ONE, 3 * ONE], 10 * ONE);
    let scope = table.begin_execution().unwrap();
    let param = Param {
        a: 2 * ONE,
        b: buffers.b.to_transient(&scope),
        indirection: buffers.indirection.to_transient(&scope),
        out: buffers.out.to_mut_transient(&scope),
    };
    assert!(param.is_valid_for(&table, 3));
    simple_compute(&mut table, &param, UVec3::new(1, 7, 9));
    table.end_execution(scope);
    assert_eq!(table.read_output(&buffers.out), vec![0, 14_000_000_000_000, 0]);
}

#[test]
fn the_record_resolves_to_its_scalar_among_other_buffers() {
    let mut table = Descriptors::new();
    let mut others = Vec::new();
    for value in 0..10 {
        others.push(table.alloc_scalar(value));
    }
    let buffers = upload(&mut table, &[ONE], 69_300_000);
    for value in 10..20 {
        others.push(table.alloc_scalar(value));
        others.push(table.alloc_scalars(vec![value; 3]));
    }
    // A second record with a scalar of its own.
    let decoy = upload(&mut table, &[ONE], 1);
    let out = run(&mut table, 0, &buffers, UVec3::new(1, 1, 1));
    assert_eq!(out, vec![69_300_000_000_000]);
    let out = run(&mut table, 0, &decoy, UVec3::new(1, 1, 1));
    assert_eq!(out, vec![1_000_000]);
    // Giving up every other buffer changes nothing.
    for other in others {
        table.release(other);
    }
    table.release(decoy.b);
    table.release(decoy.indirection);
    table.release_mut(decoy.out);
    for _ in 0..5 {
        others = Vec::new();
        others.push(table.alloc_scalar(-1));
    }
    let out = run(&mut table, 0, &buffers, UVec3::new(1, 1, 1));
    assert_eq!(out, vec![69_300_000_000_000]);
}

#[test]
fn parameters_are_checked_against_the_table() {
    let mut table = Descriptors::new();
    let buffers = upload(&mut table, &[ONE, ONE], ONE);
    let scope = table.begin_execution().unwrap();
    let param = Param {
        a: 1,
        b: buffers.b.to_transient(&scope),
        indirection: buffers.indirection.to_transient(&scope),
        out: buffers.out.to_mut_transient(&scope),
    };
    assert!(param.is_valid_for(&table, 0));
    assert!(param.is_valid_for(&table, 2));
    assert!(!param.is_valid_for(&table, 3));
    let swapped = Param { b: param.indirection, ..param };
    assert!(!swapped.is_valid_for(&table, 0));
    let swapped = Param { indirection: param.b, ..param };
    assert!(!swapped.is_valid_for(&table, 0));
    let swapped = Param { out: param.b, ..param };
    assert!(!swapped.is_valid_for(&table, 0));
    table.end_execution(scope);
    // The scope is closed: its references are of no use any more.
    assert!(!param.is_valid_for(&table, 0));
    let scope = table.begin_execution().unwrap();
    assert!(!param.is_valid_for(&table, 0));
    table.end_execution(scope);
}
