use sod::MutService;
use sod::Service;
use sod::ServiceChain;
use std::convert::Infallible;

struct AddService {
    n: usize,
}
impl AddService {
    pub fn new(n: usize) -> Self {
        Self { n }
    }
}
impl Service for AddService {
    type Input = usize;
    type Output = usize;
    type Error = Infallible;
    fn process(&self, input: usize) -> Result<usize, Infallible> {
        Ok(input + self.n)
    }
}

struct AppendService {
    n: usize,
}
impl AppendService {
    pub fn new() -> Self {
        Self { n: 0 }
    }
}
impl MutService for AppendService {
    type Input = usize;
    type Output = usize;
    type Error = Infallible;
    fn process(&mut self, input: usize) -> Result<usize, Infallible> {
        self.n += input;
        Ok(self.n)
    }
}

struct UnitAddService {
    n: usize,
}
impl Service for UnitAddService {
    type Input = usize;
    type Output = usize;
    type Error = ();
    fn process(&self, input: usize) -> Result<usize, ()> {
        Ok(input + self.n)
    }
}

struct UnitAppendService {
    n: usize,
}
impl MutService for UnitAppendService {
    type Input = usize;
    type Output = usize;
    type Error = ();
    fn process(&mut self, input: usize) -> Result<usize, ()> {
        self.n += input;
        Ok(self.n)
    }
}

#[test]
fn service_chain() {
    let chain = ServiceChain::start(AddService::new(1))
        .next(AddService::new(2))
        .next(AddService::new(4))
        .end();
    let result = chain.process(100).unwrap();
    assert_eq!(107, result);
}

#[test]
fn mut_service_chain() {
    let mut chain = ServiceChain::start_mut(AppendService::new()).end();
    chain.process(1).unwrap();
    chain.process(2).unwrap();
    let result = chain.process(4).unwrap();
    assert_eq!(7, result);
}

#[test]
fn lib_service_chain() {
    let chain = ServiceChain::start(UnitAddService { n: 1 })
        .next(UnitAddService { n: 2 })
        .next(UnitAddService { n: 4 })
        .end();
    let result = chain.process(100).unwrap();
    assert_eq!(107, result);
}

#[test]
fn lib_mut_service_chain() {
    let mut chain = ServiceChain::start_mut(UnitAppendService { n: 0 }).end();
    chain.process(1).unwrap();
    chain.process(2).unwrap();
    let result = chain.process(4).unwrap();
    assert_eq!(7, result);
}
