use vstd::prelude::*;

verus! {

/// Colors of the interface, as `#rrggbb` strings.
#[derive(Debug, Clone)]
pub struct Colors {
    pub text: String,
    pub inverttext: String,
    pub subtext: String,
    pub accent: String,
    pub borders: String,
}

/// Width of the reader pane.
#[derive(Debug, Clone)]
pub enum Size {
    String(String),
    Recommended,
}

/// Settings the core consumes: the subscriptions and the display preferences.
#[derive(Debug, Clone)]
pub struct Config {
    pub home: String,
    pub colors: Colors,
    pub dateformat: String,
    pub urls: Vec<String>,
}

pub fn default_home() -> (r: String)
    ensures
        r@ == "home"@,
{
    "home".to_string()
}

pub fn default_dateformat() -> (r: String)
    ensures
        r@ == "02/01/2006"@,
{
    "02/01/2006".to_string()
}

pub fn default_text_color() -> (r: String)
    ensures
        r@ == "#cdd6f4"@,
{
    "#cdd6f4".to_string()
}

pub fn default_invert_text_color() -> (r: String)
    ensures
        r@ == "#1e1e2e"@,
{
    "#1e1e2e".to_string()
}

pub fn default_subtext_color() -> (r: String)
    ensures
        r@ == "#a6adc8"@,
{
    "#a6adc8".to_string()
}

pub fn default_accent_color() -> (r: String)
    ensures
        r@ == "#74c7ec"@,
{
    "#74c7ec".to_string()
}

pub fn default_borders_color() -> (r: String)
    ensures
        r@ == "#313244"@,
{
    "#313244".to_string()
}

pub fn default_reader_size() -> (r: Size)
    ensures
        r is Recommended,
{
    Size::Recommended
}

pub fn default_theme() -> (r: Option<String>)
    ensures
        r is None,
{
    None
}

impl Colors {
    pub fn default() -> (r: Self)
        ensures
            r.text@ == "#cdd6f4"@,
            r.inverttext@ == "#1e1e2e"@,
            r.subtext@ == "#a6adc8"@,
            r.accent@ == "#74c7ec"@,
            r.borders@ == "#313244"@,
    {
        Colors {
            text: default_text_color(),
            inverttext: default_invert_text_color(),
            subtext: default_subtext_color(),
            accent: default_accent_color(),
            borders: default_borders_color(),
        }
    }
}

impl Config {
    pub fn get_feed_urls(&self) -> (r: Vec<String>)
        ensures
            r@.len() == self.urls@.len(),
            forall|i: int| 0 <= i < r@.len() ==> (#[trigger] r@[i])@ == self.urls@[i]@,
    {
        let mut r: Vec<String> = Vec::new();
        let mut i: usize = 0;
        while i < self.urls.len()
            invariant
                i <= self.urls@.len(),
                r@.len() == i,
                forall|j: int| 0 <= j < i ==> (#[trigger] r@[j])@ == self.urls@[j]@,
            decreases self.urls@.len() - i,
        {
            r.push(self.urls[i].clone());
            i = i + 1;
        }
        r
    }

    pub fn get_text_color(&self) -> (r: String)
        ensures
            r@ == self.colors.text@,
    {
        self.colors.text.clone()
    }

    pub fn get_invert_text_color(&self) -> (r: String)
        ensures
            r@ == self.colors.inverttext@,
    {
        self.colors.inverttext.clone()
    }

    pub fn get_subtext_color(&self) -> (r: String)
        ensures
            r@ == self.colors.subtext@,
    {
        self.colors.subtext.clone()
    }

    pub fn get_accent_color(&self) -> (r: String)
        ensures
            r@ == self.colors.accent@,
    {
        self.colors.accent.clone()
    }

    pub fn get_borders_color(&self) -> (r: String)
        ensures
            r@ == self.colors.borders@,
    {
        self.colors.borders.clone()
    }
}

} // verus!
