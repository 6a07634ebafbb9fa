use crusty_traits::cslice::{CSlice, CSliceExt};
use crusty_traits::cvec::{CVec, CVecVTable};

#[derive(Debug, Clone)]
struct TestData {
    string: String,
    number: usize,
}

fn test_cvec_inner(mut cvec: impl CVec<TestData>) {
    cvec.extend(10);
    assert_eq!(cvec.len(), 0);
    assert!(cvec.capacity() >= 10);

    cvec.push(TestData {
        string: "Hello".to_string(),
        number: 42,
    });

    {
        let slice = cvec.as_slice();

        assert!(slice.len() > 0);
        assert_eq!(slice[0].string, "Hello");
        assert_eq!(slice[0].number, 42);
    }
}

#[test]
fn test_cvec() {
    let vec: Vec<TestData> = Vec::new();
    let cvec = CVecVTable::new_boxed(vec);
    test_cvec_inner(cvec);
}

#[test]
fn vec_answers_the_vector_interface() {
    let mut v: Vec<u32> = Vec::new();
    CVec::push(&mut v, 7);
    CVec::push(&mut v, 9);
    CVec::extend(&mut v, 5);
    assert_eq!(CSlice::len(&v), 2);
    assert!(CVec::capacity(&v) >= 7);
    assert_eq!(v.as_slice(), &[7, 9]);
}

#[test]
fn erased_vector_lends_its_elements_for_writing() {
    let mut cvec = CVecVTable::new_boxed(vec![1u8, 2, 3]);
    cvec.as_mut_slice()[1] = 20;
    cvec.push(4);
    assert_eq!(cvec.as_slice(), &[1, 20, 3, 4]);
    assert_eq!(cvec.len(), 4);
}

#[test]
fn boxed_and_plain_vectors_agree_after_the_same_calls() {
    let mut plain: Vec<u64> = vec![5];
    let mut boxed = CVecVTable::new_boxed(vec![5u64]);
    CVec::push(&mut plain, 6);
    boxed.push(6);
    CVec::extend(&mut plain, 3);
    boxed.extend(3);
    assert_eq!(boxed.len(), CSlice::len(&plain));
    assert_eq!(boxed.as_slice(), plain.as_slice());
}
