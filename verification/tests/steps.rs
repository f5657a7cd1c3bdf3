use file_access::{append_to_file, open_file_for_writing, write_to_file, Next, Step, WriteRequest};

fn answered(request: &WriteRequest, answers: [Result<(), &'static str>; 3]) -> (Vec<Step>, Result<(), &'static str>) {
    let mut taken = Vec::new();
    let mut step = request.first_step();
    loop {
        taken.push(step);
        let answer = match step {
            Step::Open => answers[0],
            Step::Write => answers[1],
            Step::Flush => answers[2],
        };
        match request.next_step(step, answer) {
            Next::Take(then) => step = then,
            Next::Finish(result) => return (taken, result),
        }
    }
}

#[test]
fn a_request_starts_with_the_open() {
    assert_eq!(write_to_file("f", true, "x").first_step(), Step::Open);
    assert_eq!(append_to_file("f", "x").first_step(), Step::Open);
}

#[test]
fn each_call_is_followed_by_the_next() {
    let request = write_to_file("f", true, "x");
    assert_eq!(request.next_step(Step::Open, Ok::<(), &str>(())), Next::Take(Step::Write));
    assert_eq!(request.next_step(Step::Write, Ok::<(), &str>(())), Next::Take(Step::Flush));
    assert_eq!(request.next_step(Step::Flush, Ok::<(), &str>(())), Next::Finish(Ok(())));
}

#[test]
fn a_failure_ends_the_request_unchanged() {
    let request = append_to_file("f", "x");
    assert_eq!(request.next_step(Step::Open, Err("denied")), Next::Finish(Err("denied")));
    assert_eq!(request.next_step(Step::Write, Err("disk full")), Next::Finish(Err("disk full")));
    assert_eq!(request.next_step(Step::Flush, Err("gone")), Next::Finish(Err("gone")));
}

#[test]
fn without_a_flush_the_write_is_the_last_call() {
    let request =
        WriteRequest { open: open_file_for_writing("f", false), bytes: vec![1], flush: false };
    assert_eq!(request.next_step(Step::Open, Ok::<(), &str>(())), Next::Take(Step::Write));
    assert_eq!(request.next_step(Step::Write, Ok::<(), &str>(())), Next::Finish(Ok(())));
    assert_eq!(
        answered(&request, [Ok(()), Ok(()), Err("never asked")]),
        (vec![Step::Open, Step::Write], Ok(()))
    );
}

#[test]
fn the_first_failure_is_the_result() {
    let request = write_to_file("f", true, "x");
    assert_eq!(
        answered(&request, [Ok(()), Ok(()), Ok(())]),
        (vec![Step::Open, Step::Write, Step::Flush], Ok(()))
    );
    assert_eq!(
        answered(&request, [Err("open"), Err("write"), Err("flush")]),
        (vec![Step::Open], Err("open"))
    );
    assert_eq!(
        answered(&request, [Ok(()), Err("write"), Err("flush")]),
        (vec![Step::Open, Step::Write], Err("write"))
    );
    assert_eq!(
        answered(&request, [Ok(()), Ok(()), Err("flush")]),
        (vec![Step::Open, Step::Write, Step::Flush], Err("flush"))
    );
}
