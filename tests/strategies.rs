use inject_test::interactor::{
    CreateDataInteractor, CreateDataService, DependOnCreateDataService, InteractionHandler,
};
use inject_test::mixin::{CreateUserService, MixinCreateUserService, MixinHandler, UserService};
use inject_test::simple::{CreateSimpleDataService, DependOnCreateSimpleDataService, SimpleHandler};
use inject_test::{DataRepository, DependOnRepository, FailingRepository, Pool, Repository};

fn simple_create(h: &SimpleHandler<impl Repository>, text: &str) -> Result<u64, u64> {
    CreateSimpleDataService::create(h.create_simple_data_service(), text.to_owned())
}

fn interactor_create(h: &InteractionHandler<impl Repository + Copy>, text: &str) -> Result<u64, u64> {
    CreateDataService::create(h.create_data_service(), text.to_owned())
}

fn mixin_create(h: &MixinHandler<impl Repository>, text: &str) -> Result<u64, u64> {
    MixinCreateUserService::create(h, text.to_owned())
}

#[test]
fn simple_handler_creates_record_one() {
    let handler = SimpleHandler::init();
    assert_eq!(CreateSimpleDataService::create(&handler, "string".to_owned()), Ok(1));
}

#[test]
fn interaction_handler_creates_record_one() {
    let handler = InteractionHandler::init();
    assert_eq!(CreateDataService::create(handler.create_data_service(), "string".to_owned()), Ok(1));
}

#[test]
fn mixin_handler_creates_record_one() {
    let handler = MixinHandler::init();
    assert_eq!(MixinCreateUserService::create(&handler, "string".to_owned()), Ok(1));
}

#[test]
fn every_strategy_returns_one_for_any_text() {
    let s = SimpleHandler::init();
    let i = InteractionHandler::init();
    let m = MixinHandler::init();
    for text in ["x", "string", "a longer piece of text", "ünïcödé"] {
        assert_eq!(simple_create(&s, text), Ok(1));
        assert_eq!(interactor_create(&i, text), Ok(1));
        assert_eq!(mixin_create(&m, text), Ok(1));
    }
}

#[test]
fn strategies_agree_on_success_and_failure() {
    let s = SimpleHandler::init();
    let i = InteractionHandler::init();
    let m = MixinHandler::init();
    assert_eq!(simple_create(&s, "string"), interactor_create(&i, "string"));
    assert_eq!(mixin_create(&m, "string"), interactor_create(&i, "string"));

    let s = SimpleHandler::with_repository(FailingRepository::new(3));
    let i = InteractionHandler::with_repository(FailingRepository::new(3));
    let m = MixinHandler::with_repository(FailingRepository::new(3));
    assert_eq!(simple_create(&s, "string"), Err(3));
    assert_eq!(simple_create(&s, "string"), interactor_create(&i, "string"));
    assert_eq!(mixin_create(&m, "string"), interactor_create(&i, "string"));
}

#[test]
fn repeated_creates_return_one_each_time() {
    let s = SimpleHandler::init();
    let i = InteractionHandler::init();
    let m = MixinHandler::init();
    for _ in 0..100 {
        assert_eq!(simple_create(&s, "string"), Ok(1));
        assert_eq!(interactor_create(&i, "string"), Ok(1));
        assert_eq!(mixin_create(&m, "string"), Ok(1));
    }
}

#[test]
fn interaction_paths_report_same_failure() {
    let handler = InteractionHandler::with_repository(FailingRepository::new(42));
    let direct = CreateSimpleDataService::create(&handler, "string".to_owned());
    let delegated = interactor_create(&handler, "string");
    assert_eq!(direct, Err(42));
    assert_eq!(delegated, Err(42));
    assert_eq!(handler.repository().code(), 42);
    assert_eq!(handler.create_data_service().repository().code(), 42);
}

#[test]
fn failure_code_reaches_every_strategy_unchanged() {
    for code in [0u64, 1, 7, 500, u64::MAX] {
        let s = SimpleHandler::with_repository(FailingRepository::new(code));
        let i = InteractionHandler::with_repository(FailingRepository::new(code));
        let m = MixinHandler::with_repository(FailingRepository::new(code));
        assert_eq!(simple_create(&s, "string"), Err(code));
        assert_eq!(interactor_create(&i, "string"), Err(code));
        assert_eq!(mixin_create(&m, "string"), Err(code));
    }
}

#[test]
fn failing_capability_with_code_seven() {
    let s = SimpleHandler::with_repository(FailingRepository::new(7));
    let i = InteractionHandler::with_repository(FailingRepository::new(7));
    let m = MixinHandler::with_repository(FailingRepository::new(7));
    assert_eq!(simple_create(&s, "string"), Err(7));
    assert_eq!(interactor_create(&i, "string"), Err(7));
    assert_eq!(mixin_create(&m, "string"), Err(7));
}

#[test]
fn init_wires_a_working_repository() {
    assert_eq!(SimpleHandler::init().repository().create(), Ok(()));
    let i = InteractionHandler::init();
    assert_eq!(i.repository().create(), Ok(()));
    assert_eq!(i.create_data_service().repository().create(), Ok(()));
    assert_eq!(MixinHandler::init().repository().create(), Ok(()));
}

#[test]
fn data_repository_always_succeeds() {
    let repo = DataRepository::new(Pool);
    assert_eq!(repo.create(), Ok(()));
    let copy = repo.clone();
    assert_eq!(copy.create(), Ok(()));
}

#[test]
fn failing_repository_reports_its_code() {
    let repo = FailingRepository::new(9);
    assert_eq!(repo.code(), 9);
    assert_eq!(repo.create(), Err(9));
}

#[test]
fn interactor_delegates_to_its_repository() {
    let ok = CreateDataInteractor::new(DataRepository::new(Pool));
    assert_eq!(CreateDataService::create(&ok, "string".to_owned()), Ok(1));
    let failing = CreateDataInteractor::new(FailingRepository::new(11));
    assert_eq!(CreateDataService::create(&failing, "string".to_owned()), Err(11));
    assert_eq!(failing.repository().code(), 11);
}

#[test]
fn user_service_serves_any_consumer() {
    let handler = MixinHandler::init();
    assert_eq!(UserService::create(&handler, "string".to_owned()), Ok(1));
    let failing = SimpleHandler::with_repository(FailingRepository::new(5));
    assert_eq!(UserService::create(&failing, "string".to_owned()), Err(5));
}

#[test]
fn simple_handler_is_its_own_service() {
    let handler = SimpleHandler::with_repository(FailingRepository::new(13));
    assert_eq!(handler.create_simple_data_service().repository().code(), 13);
}
