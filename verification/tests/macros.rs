use erratic::builder::{Builder, BuilderExt, ErrorExt};
use erratic::context::{ContextValue, Mkctx, Value};
use erratic::macros::{comparison_failure, mksure, mksure_with, FromAll, FromDebug};
use erratic::raw::ForeignError;
use erratic::rtti::{I32_TAG, STRING_TAG};
use erratic::state::Stateless;
use erratic::test_fixtures::{TestError, TestMessage};
use erratic::Error;

fn foo() -> ForeignError {
    TestError::foo().into_foreign()
}

fn formatted(text: String) -> Value {
    Value::Lazy(ContextValue::from_string(text))
}

#[test]
fn type_reference_check() {
    let _ = || -> Result<(), Error<Stateless>> {
        return Err(Error::from_context("test"));
    };
    let _ = || -> Result<(), Error<i32>> {
        return Err(Error::from_context("test"));
    };
}

#[test]
fn error_from_literal() {
    let _: Error<Stateless> = Error::from_context("test");
}

#[test]
fn error_from_format_string() {
    let filename = "file.txt";
    let _: Error<Stateless> = Error::from_context(formatted(format!("{} not found", filename)));
}

#[test]
fn error_from_kvs() {
    let err_from_mkerr: Error<i32> = Err::<(), ForeignError>(foo())
        .with_state(42i32)
        .with_context(TestMessage::hoge())
        .build_error()
        .unwrap_err();
    let err_from_builder: Error<i32> = Builder::<Stateless>::with_error(foo())
        .attach_state(42i32)
        .attach_context(TestMessage::hoge())
        .build_error();

    assert_eq!(err_from_mkerr.to_string_alt(), err_from_builder.to_string_alt());
}

#[test]
fn error_from_kvs_unordered() {
    let err_from_mkerr: Error<i32> = Builder::<Stateless>::with_error(foo())
        .attach_context(TestMessage::hoge())
        .attach_state(42i32)
        .build_error();
    let err_from_builder: Error<i32> = Builder::<Stateless>::with_error(foo())
        .attach_state(42i32)
        .attach_context(TestMessage::hoge())
        .build_error();

    assert_eq!(err_from_mkerr.to_string_alt(), err_from_builder.to_string_alt());
}

#[test]
fn error_from_hybrid() {
    let world = "world!";
    let err_from_mkerr: Error<i32> = Builder::<Stateless>::with_error(foo())
        .attach_state(42i32)
        .attach_context(Mkctx::__priv_new("hello {world}", move || Some(format!("hello {world}"))))
        .build_error();
    let err_from_builder: Error<i32> = Builder::<Stateless>::with_error(foo())
        .attach_state(42i32)
        .attach_context(formatted(format!("hello {world}")))
        .build_error();

    assert_eq!(err_from_mkerr.to_string_alt(), err_from_builder.to_string_alt());
}

#[test]
fn infer_default_state_if_state_is_not_specified() {
    let _: Error<i32> = Error::from_context(TestMessage::hoge());
    let _ = || -> Result<(), Error<i32>> {
        return Err(Error::from_context(TestMessage::hoge()));
    };
}

#[test]
fn no_need_for_type_hint_if_state_is_specified() {
    let _ = Builder::with_state(42i32)
        .attach_context(TestMessage::hoge())
        .build_error();
    let _: Error<Stateless> = Error::from_context(TestMessage::hoge());
}

#[test]
fn error_from_literal_like_format_string() {
    let filename = "file.txt";
    let ctx = Mkctx::__priv_new("{filename} not found", move || Some(format!("{filename} not found")));
    let err: Error<Stateless> = Error::from_context(ctx);
    assert!(err.has_context_of(STRING_TAG));
}

#[test]
fn error_from_literal_without_allocation() {
    let ctx = Mkctx::__priv_new_const("file not found");
    let err: Error<Stateless> = Error::from_context(ctx);
    assert!(!err.has_context_of(STRING_TAG));
}

#[test]
fn mkerr_and_mkres_share_same_capabilities() {
    let world = "world";
    let exclamation = "!";
    let err_from_mkerr: Error<i32> = Builder::<Stateless>::with_error(foo())
        .attach_state(42i32)
        .attach_context(formatted(format!("hello {world}{}", exclamation)))
        .build_error();
    let err_from_mkres: Result<(), Error<i32>> = Err(Builder::<Stateless>::with_error(foo())
        .attach_state(42i32)
        .attach_context(formatted(format!("hello {world}{}", exclamation)))
        .build_error());
    assert_eq!(err_from_mkerr.to_string(), err_from_mkres.unwrap_err().to_string());
}

#[test]
fn mkctx_plain_literal_does_not_allocate() {
    let ctx = Mkctx::__priv_new("hello", || None);
    assert!(ctx.select().is_ok(), "mkctx with a plain literal should not allocate");

    let name = "world";
    let ctx = Mkctx::__priv_new("hello {}", move || Some(format!("hello {}", name)));
    assert!(ctx.select().is_err(), "mkctx with format args should allocate");

    let ctx = Mkctx::__priv_new("hello {name}", move || Some(format!("hello {name}")));
    assert!(ctx.select().is_err(), "mkctx with format args should allocate");
}

#[test]
fn mksure_compare_non_debug() {
    #[derive(PartialEq, Eq, PartialOrd, Ord)]
    struct A;

    let lhs = A;
    let rhs = A;
    let context = comparison_failure(
        FromAll.from(&lhs),
        ">",
        FromAll.from(&rhs),
        "A > A",
        "assertion failed: A > A",
    );
    assert!(mksure(lhs > rhs, context).is_err());
}

#[test]
fn mksure_compare_debug_with_eval() {
    let magic_number = 123454321i32;
    let context = comparison_failure(
        FromDebug.from(&magic_number),
        "!=",
        FromDebug.from(&magic_number),
        "magic_number != magic_number",
        "assertion failed: magic_number != magic_number",
    );
    let err_msg: Error<Stateless> = mksure(magic_number != magic_number, context).unwrap_err();

    assert!(err_msg.to_string().find("123454321").is_some());
}

#[test]
fn mksure_assert_with_message() {
    let magic_number = -123454321i32;
    let err: Error<Stateless> = mksure(
        magic_number.is_positive(), "magic number must be greater than zero")
    .unwrap_err();

    assert_eq!(err.chain().len(), 1);
    assert_eq!(err.to_string(), "magic number must be greater than zero");
}

#[test]
fn mksure_compare_with_message() {
    let magic_number = -123454321;
    let err = mksure(magic_number > 0, "magic number must be greater than zero")
        .unwrap_err();

    assert_eq!(err.chain().len(), 1);
    assert_eq!(err.to_string(), "magic number must be greater than zero");
}

#[test]
fn mksure_compare_with_message_args() {
    let magic_number = -123454321;
    let lower_bound = 32;
    let err = mksure(
        magic_number > lower_bound,
        formatted(format!("magic number must be greater than {lower_bound}")),
    )
    .unwrap_err();

    assert_eq!(err.chain().len(), 1);
    assert_eq!(err.to_string(), format!("magic number must be greater than {lower_bound}"));
}

#[test]
fn mksure_compare_with_state() {
    let magic_number = -123454321;
    let err = mksure_with(magic_number > 0, Builder::with_state(-1i32)).unwrap_err();

    assert_eq!(err.chain().len(), 1);
    assert_eq!(err.to_string(), format!("-1"));
}

#[test]
fn mksure_compare_with_context() {
    let magic_number = -123454321;
    let context = Value::Lazy(ContextValue { type_tag: I32_TAG, text: 670.to_string() });
    let err = mksure_with(magic_number > 0, Builder::<Stateless>::with_context(context)).unwrap_err();

    assert_eq!(err.chain().len(), 1);
    assert_eq!(err.to_string(), format!("670"));
}

#[test]
fn mksure_compare_with_state_and_message_args() {
    let magic_number = -123454321;
    let lower_bound = 32;
    let err = mksure_with(
        magic_number > lower_bound,
        Builder::with_state(-1i32)
            .attach_context(formatted(format!("magic number must be greater than {lower_bound}"))),
    )
    .unwrap_err();

    assert_eq!(err.chain().len(), 1);
    assert_eq!(err.to_string(), format!("-1: magic number must be greater than {lower_bound}"));
}

#[test]
fn mksure_returns_error() {
    fn mksure_returns_error_() -> Result<(), Error<Stateless>> {
        mksure(false, "assertion failed: false")?;
        Ok(())
    }
    assert!(mksure_returns_error_().is_err());
}

#[test]
fn mksure_evaluates_expression_once() {
    fn check() -> Result<(), Error<Stateless>> {
        // No comparison expression, no explicit context.
        {
            let value = Some(1i32);
            mksure(value.unwrap().is_positive(), "assertion failed")?;
        }
        // Comparison expression, no explicit context.
        {
            let value = Some(1i32);
            let lhs = value.unwrap();
            let context = comparison_failure(
                FromDebug.from(&lhs),
                ">",
                FromDebug.from(&0i32),
                "value.unwrap() > 0",
                "assertion failed: value.unwrap() > 0",
            );
            mksure(lhs > 0, context)?;
        }
        // No comparison expression, explicit context.
        {
            let value = Some(1i32);
            mksure(value.unwrap().is_positive(), TestMessage::hoge())?;
        }
        // Comparison expression, explicit context.
        {
            let value = Some(1i32);
            mksure(value.unwrap() > 0, TestMessage::hoge())?;
        }
        Ok(())
    }
    assert!(check().is_ok());
}

#[test]
fn mksure_compound_boolean_not_treated_as_single_comparison() {
    fn check() -> Result<(), Error<Stateless>> {
        // `a && b > c` == `a && (b > c)`.
        {
            let a = true;
            let b = 3i32;
            let c = 2i32;
            mksure(a && b > c, "assertion failed: a && b > c")?;
        }
        // `a || b > c` == `a || (b > c)`.
        {
            let a = false;
            let b = 3i32;
            let c = 2i32;
            mksure(a || b > c, "assertion failed: a || b > c")?;
        }
        // `||` short-circuits when `a` is already true.
        {
            let a = true;
            let b = 1i32;
            let c = 2i32;
            mksure(a || b > c, "assertion failed: a || b > c")?;
        }
        Ok(())
    }
    assert!(check().is_ok());
}

#[test]
fn comparison_failure_shows_both_operands() {
    let context = comparison_failure(
        FromDebug.from(&0usize),
        "==",
        FromDebug.from(&33usize),
        "buffer.len() == PNG_HEADER_SIZE",
        "assertion failed: buffer.len() == PNG_HEADER_SIZE",
    );
    let err = mksure(0usize == 33, context).unwrap_err();
    assert_eq!(err.to_string(), "assertion failed (0 == 33): buffer.len() == PNG_HEADER_SIZE");
}

#[test]
fn mkctx_is_lazy() {
    let called = std::cell::Cell::new(false);
    let tracker = || {
        called.set(true);
        Some(String::from("tracked"))
    };

    // The formatting is kept, not run, while the builder is assembled.
    let builder = Builder::<Stateless>::with_error(foo()).attach_context(Mkctx::__priv_new("{}", tracker));
    assert!(!called.get(), "mkctx should not execute the closure before materialization");

    // Materializing the error runs it.
    let _err: Error<Stateless> = builder.build_error();
    assert!(called.get(), "mkctx should execute the closure during materialization");
}
