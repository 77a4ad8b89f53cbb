use vstd::prelude::*;
use vstd::string::StringExecFns;

verus! {

/// General application configuration.
#[derive(Debug)]
pub struct AppSettings {
    /// Configuration of the scraper.
    pub scraper: Scraper,
    /// Optional proxy configuration.
    pub proxy: Proxy,
}

/// Scraper configuration.
#[derive(Debug)]
pub struct Scraper {
    /// Bestsellers category to scrape.
    pub category: String,
    /// Delay between each page request, in milliseconds.
    pub delay: u64,
    /// Limit of total store items to scrape; zero lifts the limit.
    pub limit: u32,
    /// Output csv file.
    pub output: String,
}

/// Proxy configuration.
#[derive(Debug)]
pub struct Proxy {
    /// Sets whether the proxy functionality enabled or not.
    pub enabled: bool,
    /// Proxy address.
    pub addr: String,
}

/// Category that is scraped when none is configured.
pub open spec fn default_category() -> Seq<char> {
    "https://www.amazon.com/gp/bestsellers/pc/11036071/"@
}

/// Output file that is written when none is configured.
pub open spec fn default_output() -> Seq<char> {
    "bestsellers.csv"@
}

impl Default for Scraper {
    fn default() -> (settings: Self)
        ensures
            settings.category@ == default_category(),
            settings.delay == 0,
            settings.limit == 1000,
            settings.output@ == default_output(),
    {
        Scraper {
            category: String::from_str("https://www.amazon.com/gp/bestsellers/pc/11036071/"),
            delay: 0,
            limit: 1000,
            output: String::from_str("bestsellers.csv"),
        }
    }
}

impl Default for Proxy {
    fn default() -> (proxy: Self)
        ensures
            !proxy.enabled,
            proxy.addr@ == Seq::<char>::empty(),
    {
        Proxy { enabled: false, addr: String::new() }
    }
}

impl Proxy {
    /// The address that the session is to take its proxy settings from:
    /// the configured one where the proxy is enabled, none where it is not.
    pub fn auto_config_url(&self) -> (url: Option<&String>)
        ensures
            url is Some <==> self.enabled,
            url matches Some(addr) ==> addr@ == self.addr@,
    {
        if self.enabled {
            Some(&self.addr)
        } else {
            None
        }
    }
}

impl Default for AppSettings {
    fn default() -> (settings: Self)
        ensures
            settings.scraper.category@ == default_category(),
            settings.scraper.delay == 0,
            settings.scraper.limit == 1000,
            settings.scraper.output@ == default_output(),
            !settings.proxy.enabled,
            settings.proxy.addr@ == Seq::<char>::empty(),
    {
        AppSettings { scraper: Scraper::default(), proxy: Proxy::default() }
    }
}

} // verus!
