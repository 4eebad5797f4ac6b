use exceptions::catch;
use exceptions::render_at;
use exceptions::throw;
use exceptions::Exception;
use exceptions::IntoThrowable;
use exceptions::Throwable;

#[test]
fn fresh_exception_is_rendered_as_its_message_line() {
    let e = Exception::new("boom".to_string());
    assert_eq!(e.render_stack_trace(), "boom\n");
}

#[test]
fn converted_text_gathers_the_boundaries_it_crosses() {
    let mut e: Exception = "disk full".into_throwable();
    e.push_stack("a.src", 10, "readFile()");
    e.push_stack("b.src", 20, "load()");
    let trace = e.get_stack_trace();
    assert_eq!(trace.len(), 2);
    assert_eq!(trace[0].file, "b.src");
    assert_eq!(trace[0].line, 20);
    assert_eq!(trace[0].expr, "load()");
    assert_eq!(trace[1].file, "a.src");
    assert_eq!(trace[1].line, 10);
    assert_eq!(trace[1].expr, "readFile()");
    assert_eq!(
        e.render_stack_trace(),
        "disk full\n\tat load() [b.src:20]\n\tat readFile() [a.src:10]\n"
    );
}

#[test]
fn cause_is_rendered_behind_the_exception_that_wraps_it() {
    let inner = Exception::new("root cause".to_string());
    let outer = Exception::new_with_cause("wrap".to_string(), inner);
    assert_eq!(outer.render_stack_trace(), "wrap\nCaused by: root cause\n");
}

#[test]
fn throw_converts_and_records_the_place() {
    let thrown: Exception = throw("no space", "c.src", 7, "write()");
    assert_eq!(thrown.get_message(), "no space");
    assert!(thrown.get_cause().is_none());
    let trace = thrown.get_stack_trace();
    assert_eq!(trace.len(), 1);
    assert_eq!(trace[0].file, "c.src");
    assert_eq!(trace[0].line, 7);
    assert_eq!(trace[0].expr, "write()");
    assert_eq!(thrown.render_stack_trace(), "no space\n\tat write() [c.src:7]\n");
}

#[test]
fn catch_hands_a_success_on_untouched() {
    let outcome: Result<u32, &'static str> = Ok(42);
    let caught: Result<u32, Exception> = catch(outcome, "d.src", 8, "save()");
    assert!(matches!(caught, Ok(42)));
}

#[test]
fn catch_converts_a_failure_and_records_the_boundary() {
    let outcome: Result<u32, &'static str> = Err("no space");
    let caught: Result<u32, Exception> = catch(outcome, "d.src", 8, "save()");
    let e = caught.unwrap_err();
    assert_eq!(e.get_message(), "no space");
    assert_eq!(e.get_stack_trace().len(), 1);
    assert_eq!(e.render_stack_trace(), "no space\n\tat save() [d.src:8]\n");
}

#[test]
fn catch_adds_to_the_trace_of_a_throwable_that_passes_through() {
    let thrown: Exception = throw("no space", "c.src", 7, "write()");
    let outcome: Result<u8, Exception> = Err(thrown);
    let caught: Result<u8, Exception> = catch(outcome, "d.src", 8, "save()");
    let e = caught.unwrap_err();
    assert_eq!(
        e.render_stack_trace(),
        "no space\n\tat save() [d.src:8]\n\tat write() [c.src:7]\n"
    );
}

fn innermost() -> Result<(), Exception> {
    Err(throw("cannot open", "store.src", 3, "open()"))
}

fn middle() -> Result<u8, Exception> {
    match catch(innermost(), "store.src", 14, "innermost()") {
        Ok(()) => Ok(1),
        Err(e) => Err(e),
    }
}

fn outermost() -> Result<u8, Exception> {
    match catch(middle(), "main.src", 25, "middle()") {
        Ok(n) => Ok(n),
        Err(e) => Err(e),
    }
}

#[test]
fn a_failure_that_climbs_three_calls_lists_them_top_down() {
    let e = outermost().unwrap_err();
    assert_eq!(
        e.render_stack_trace(),
        "cannot open\n\tat middle() [main.src:25]\n\tat innermost() [store.src:14]\n\tat open() [store.src:3]\n"
    );
}

#[test]
fn reporting_records_the_place_and_renders_with_it() {
    let mut e: Exception = throw("no space", "c.src", 7, "write()");
    let text = render_at(&mut e, "main.src", 30, "report(e)");
    assert_eq!(text, "no space\n\tat report(e) [main.src:30]\n\tat write() [c.src:7]\n");
    assert_eq!(e.get_message(), "no space");
    assert!(e.get_cause().is_none());
    assert_eq!(e.get_stack_trace().len(), 2);
    assert_eq!(e.get_stack_trace()[0].expr, "report(e)");
    assert_eq!(e.get_stack_trace()[1].expr, "write()");
    assert_eq!(e.render_stack_trace(), text);
}
