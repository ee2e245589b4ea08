use scoped_ops::scoped::{Assign, Noop, Pop, Push, VecScoped, VecScopedPrivate};

#[test]
fn test_scoped_vec() {
    let a: Vec<i32> = vec![1];
    let mut b = a.pushed(2);
    {
        let c = b.pushed(3);
        assert_eq!([1, 2, 3], *c.current());
        b = c.into_inner();
    }
    let d = b.pushed(-3);
    assert_eq!([1, 2, -3], *d.current());
    b = d.into_inner();
    let a = b.into_inner();
    let e = a.pushed(-2);
    assert_eq!([1, -2], *e.current());
    let a = e.into_inner();
    assert_eq!([1], *a);
}

#[test]
fn test_noop() {
    let a: Vec<i32> = vec![1, 2, 3];
    let b = a.nooped();
    assert_eq!([1, 2, 3], *b.current());
    let a = b.into_inner();
    assert_eq!([1, 2, 3], *a);
}

#[test]
fn test_pop_empty() {
    let a = Vec::<i32>::new();
    let b = a.popped();
    assert_eq!([0i32; 0], *b.current());
    let a = b.into_inner();
    assert_eq!([0i32; 0], *a);
}

#[test]
fn test_pop() {
    let a: Vec<i32> = vec![1];
    let b = a.popped();
    assert_eq!([0i32; 0], *b.current());
    let a = b.into_inner();
    assert_eq!([1], *a);
}

#[test]
fn lib_test_pop() {
    let a: Vec<i32> = vec![1];
    let b = a.popped();
    assert_eq!([0i32; 0], *b.current());
    assert_eq!([1], *b.into_inner());
}

#[test]
fn test_pop_push() {
    let a: Vec<i32> = vec![1];
    let b = a.popped().pushed(-1);
    assert_eq!([-1], *b.current());
    let a = b.into_inner().into_inner();
    assert_eq!([1], *a);
}

#[test]
fn test_assigned() {
    let a: Vec<i32> = vec![0, 1, 2, 3];
    let b = a.assigned(2, 5);
    assert_eq!([0, 1, 5, 3], *b.current());
    let a = b.into_inner();
    assert_eq!([0, 1, 2, 3], *a);
}

#[test]
fn test_must_use() {
    let a: Vec<i32> = vec![1];
    // Applying an operation and releasing it at once is a useless round trip:
    // the push is immediately undone.
    let a = a.pushed(2).into_inner();
    assert_eq!([1], *a);
}

#[test]
fn test_assign_out_of_bounds_fails_before_mutating() {
    let a: Vec<i32> = vec![1];
    match Assign::try_new(a, 5, 2) {
        Ok(_) => panic!("an out-of-bounds index must not yield a handle"),
        Err((a, value)) => {
            assert_eq!([1], *a);
            assert_eq!(5, value);
        }
    }
}

#[test]
fn test_assign_in_bounds_through_try_new() {
    let a: Vec<i32> = vec![7, 8];
    let b = match Assign::try_new(a, 9, 0) {
        Ok(b) => b,
        Err(_) => panic!("an in-bounds index must yield a handle"),
    };
    assert_eq!([9, 8], *b.current());
    let a = b.into_inner();
    assert_eq!([7, 8], *a);
}

#[test]
fn test_push_on_empty() {
    let a = Vec::<i32>::new();
    let b = Push::new(a, 4);
    assert_eq!([4], *b.current());
    let a = b.into_inner();
    assert_eq!([0i32; 0], *a);
}

#[test]
fn test_assign_first_and_last_index() {
    let a: Vec<i32> = vec![10, 20, 30];
    let b = Assign::new(a, -10, 0);
    assert_eq!([-10, 20, 30], *b.current());
    let c = b.assigned(2, -30);
    assert_eq!([-10, 20, -30], *c.current());
    let b = c.into_inner();
    assert_eq!([-10, 20, 30], *b.current());
    let a = b.into_inner();
    assert_eq!([10, 20, 30], *a);
}

#[test]
fn test_mixed_chain_unwinds_every_intermediate_state() {
    let a: Vec<i32> = vec![0, 1, 2, 3];
    let b = Noop::new(a);
    assert_eq!([0, 1, 2, 3], *b.current());
    let c = Pop::new(b);
    assert_eq!([0, 1, 2], *c.current());
    let d = Assign::new(c, 9, 1);
    assert_eq!([0, 9, 2], *d.current());
    let e = Push::new(d, 7);
    assert_eq!([0, 9, 2, 7], *e.current());
    // Unwind in reverse creation order; every intermediate state reappears.
    let d = e.into_inner();
    assert_eq!([0, 9, 2], *d.current());
    let c = d.into_inner();
    assert_eq!([0, 1, 2], *c.current());
    let b = c.into_inner();
    assert_eq!([0, 1, 2, 3], *b.current());
    let a = b.into_inner();
    assert_eq!([0, 1, 2, 3], *a);
}

#[test]
fn test_pop_then_push_on_empty() {
    let a = Vec::<i32>::new();
    let b = a.popped();
    assert_eq!([0i32; 0], *b.current());
    let c = b.pushed(5);
    assert_eq!([5], *c.current());
    let a = c.into_inner().into_inner();
    assert_eq!([0i32; 0], *a);
}

#[test]
fn test_vec_mut_is_the_backing_vector() {
    let a: Vec<i32> = vec![1, 2];
    let mut b = a.nooped();
    assert_eq!(2, b.vec_mut().len());
    let a = b.into_inner();
    assert_eq!([1, 2], *a);
}
